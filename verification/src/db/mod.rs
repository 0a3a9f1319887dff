//! The relational store: accounts, sessions and tasks, held in memory.
//!
//! Every operation answers as the store's client library would: a row, a
//! number of rows, or a [`StoreFailure`]. The tables keep their rows in the
//! order in which they were written. A service on another store hands the
//! same answers to the functions that decide what they mean.

pub mod sessions;
pub mod tasks;
pub mod users;

use vstd::prelude::*;
use vstd::string::*;
use crate::db::sessions::{first_answer, sessions_distinct, SessionRowView, SessionTable};
use crate::db::tasks::{TaskTable, TaskTableView};
use crate::db::users::{UserTable, UserTableView};
use crate::modules::user::{User, UserView};
use crate::text::{clone_opt, opt_text};

verus! {

/// Why the store did not answer with a row or a count.
#[derive(Debug, PartialEq, Eq)]
pub enum StoreFailure {
    /// A query for one row matched none.
    RowNotFound,
    /// The database refused the statement; the code is its SQLSTATE, if it gave one.
    Database(Option<String>),
    /// Anything else: the connection, the protocol, the pool.
    Other,
}

impl Clone for StoreFailure {
    fn clone(&self) -> (copy: Self)
        ensures
            copy == *self,
    {
        match self {
            StoreFailure::RowNotFound => StoreFailure::RowNotFound,
            StoreFailure::Database(code) => StoreFailure::Database(clone_opt(code)),
            StoreFailure::Other => StoreFailure::Other,
        }
    }
}

/// A [`StoreFailure`] over sequences of characters.
pub enum StoreFailureView {
    RowNotFound,
    Database(Option<Seq<char>>),
    Other,
}

impl View for StoreFailure {
    type V = StoreFailureView;

    open spec fn view(&self) -> StoreFailureView {
        match *self {
            StoreFailure::RowNotFound => StoreFailureView::RowNotFound,
            StoreFailure::Database(code) => StoreFailureView::Database(opt_text(code)),
            StoreFailure::Other => StoreFailureView::Other,
        }
    }
}

/// The view of what the store answers where the answer has a view.
pub open spec fn answer_view<T: View>(answer: Result<T, StoreFailure>) -> Result<
    T::V,
    StoreFailureView,
> {
    match answer {
        Ok(value) => Ok(value@),
        Err(failure) => Err(failure@),
    }
}

/// The failure of a statement that would break a uniqueness constraint.
pub open spec fn unique_violation() -> StoreFailureView {
    StoreFailureView::Database(Some("23505"@))
}

/// The failure of a statement for which the table has no identifier left.
pub open spec fn out_of_identifiers() -> StoreFailureView {
    StoreFailureView::Database(Some("22003"@))
}

/// The failure of a statement that computes a moment beyond the last one.
pub open spec fn timestamp_out_of_range() -> StoreFailureView {
    StoreFailureView::Database(Some("22008"@))
}

/// The view of the store's answer to a write: the number of rows, or the failure.
pub open spec fn rows_view(written: Result<u64, StoreFailure>) -> Result<u64, StoreFailureView> {
    match written {
        Ok(rows) => Ok(rows),
        Err(failure) => Err(failure@),
    }
}

pub(crate) fn timestamp_out_of_range_failure() -> (failure: StoreFailure)
    ensures
        failure@ == timestamp_out_of_range(),
{
    StoreFailure::Database(Some(String::from_str("22008")))
}

pub(crate) fn unique_violation_failure() -> (failure: StoreFailure)
    ensures
        failure@ == unique_violation(),
{
    StoreFailure::Database(Some(String::from_str("23505")))
}

pub(crate) fn out_of_identifiers_failure() -> (failure: StoreFailure)
    ensures
        failure@ == out_of_identifiers(),
{
    StoreFailure::Database(Some(String::from_str("22003")))
}

/// The three tables of the store.
pub struct Database {
    pub users: UserTable,
    pub sessions: SessionTable,
    pub tasks: TaskTable,
}

/// The rows of the three tables.
pub struct DatabaseView {
    pub users: UserTableView,
    pub sessions: Seq<SessionRowView>,
    pub tasks: TaskTableView,
}

impl View for Database {
    type V = DatabaseView;

    open spec fn view(&self) -> DatabaseView {
        DatabaseView { users: self.users@, sessions: self.sessions@, tasks: self.tasks@ }
    }
}

impl DatabaseView {
    /// The invariant of the store: that of each table.
    pub open spec fn wf(self) -> bool {
        &&& self.users.wf()
        &&& sessions_distinct(self.sessions)
        &&& self.tasks.wf()
    }

    /// What the query for the owner of a session answers: the account of
    /// the first session that carries `token` and is valid at `now`, as long
    /// as that account is active.
    pub open spec fn session_user(self, token: Seq<char>, now: u64) -> Result<
        UserView,
        StoreFailureView,
    > {
        match first_answer(self.sessions, token, now) {
            Some(session) => match self.users.active_user(session.user_id) {
                Some(user) => Ok(user),
                None => Err(StoreFailureView::RowNotFound),
            },
            None => Err(StoreFailureView::RowNotFound),
        }
    }
}

impl Database {
    /// The invariant of the store.
    pub open spec fn wf(&self) -> bool {
        self@.wf()
    }

    /// A store without accounts, sessions or tasks.
    pub fn new() -> (db: Self)
        ensures
            db.wf(),
            db@.users == (UserTableView { rows: Seq::empty(), next_id: 1 }),
            db@.sessions == Seq::<SessionRowView>::empty(),
            db@.tasks == (TaskTableView { rows: Seq::empty(), next_id: 1 }),
    {
        Database { users: UserTable::new(), sessions: SessionTable::new(), tasks: TaskTable::new() }
    }

    /// `SELECT .. FROM users WHERE users.id = (SELECT user_id FROM sessions
    /// WHERE data = .. AND expires_at - now > 0 LIMIT 1) AND users.state =
    /// 'active'`.
    pub fn session_user(&self, token: &String, now: u64) -> (answer: Result<User, StoreFailure>)
        requires
            self.wf(),
        ensures
            answer_view(answer) == self@.session_user(token@, now),
    {
        match self.sessions.owner(token, now) {
            Some(user_id) => match self.users.active_user(user_id) {
                Some(user) => Ok(user),
                None => Err(StoreFailure::RowNotFound),
            },
            None => Err(StoreFailure::RowNotFound),
        }
    }
}

} // verus!
