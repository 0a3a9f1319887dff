//! What a handler answers: a status, an optional `Set-Cookie` value and a body.

use vstd::prelude::*;
use crate::db::tasks::task_views;
use crate::modules::task::{Task, TaskView};
use crate::modules::user::{PublicUser, PublicUserView};
use crate::text::opt_text;

verus! {

/// Status of a successful request.
pub const STATUS_OK: u16 = 200;

/// Status of a request that created something.
pub const STATUS_CREATED: u16 = 201;

/// The body of a reply.
#[derive(Debug, PartialEq, Eq)]
pub enum Body {
    /// Nothing.
    Empty,
    /// An account, without its digest.
    User(PublicUser),
    /// A task.
    Task(Task),
    /// The tasks of a user.
    Tasks(Vec<Task>),
    /// An error message and, once more, the status.
    Error { error: String, status: u16 },
}

/// A [`Body`] over sequences of characters.
pub enum BodyView {
    Empty,
    User(PublicUserView),
    Task(TaskView),
    Tasks(Seq<TaskView>),
    Error { error: Seq<char>, status: u16 },
}

impl View for Body {
    type V = BodyView;

    open spec fn view(&self) -> BodyView {
        match *self {
            Body::Empty => BodyView::Empty,
            Body::User(user) => BodyView::User(user@),
            Body::Task(task) => BodyView::Task(task@),
            Body::Tasks(tasks) => BodyView::Tasks(task_views(tasks@)),
            Body::Error { error, status } => BodyView::Error { error: error@, status },
        }
    }
}

/// The answer to one request.
#[derive(Debug, PartialEq, Eq)]
pub struct Reply {
    pub status: u16,
    pub set_cookie: Option<String>,
    pub body: Body,
}

/// A [`Reply`] over sequences of characters.
pub struct ReplyView {
    pub status: u16,
    pub set_cookie: Option<Seq<char>>,
    pub body: BodyView,
}

impl View for Reply {
    type V = ReplyView;

    open spec fn view(&self) -> ReplyView {
        ReplyView { status: self.status, set_cookie: opt_text(self.set_cookie), body: self.body@ }
    }
}

/// A reply without a cookie and without a body.
pub open spec fn bare(status: u16) -> ReplyView {
    ReplyView { status, set_cookie: None, body: BodyView::Empty }
}

/// Makes a reply without a cookie and without a body.
pub fn bare_reply(status: u16) -> (reply: Reply)
    ensures
        reply@ == bare(status),
{
    Reply { status, set_cookie: None, body: Body::Empty }
}

} // verus!
