//! The error kinds of the service and the status and message each one carries.

use vstd::prelude::*;
use vstd::string::*;
use crate::reply::{Body, BodyView, Reply, ReplyView};

verus! {

/// Status of a rejected request whose input was not acceptable.
pub const STATUS_BAD_REQUEST: u16 = 400;

/// Status of a rejected registration or update that collides with an
/// existing account. It is 302, where 409 would be the usual choice.
pub const STATUS_FOUND: u16 = 302;

/// Status of a request without a valid session or with wrong credentials.
pub const STATUS_UNAUTHORIZED: u16 = 401;

/// Status of a request for something that does not exist.
pub const STATUS_NOT_FOUND: u16 = 404;

/// Status of a request that failed on the server's side.
pub const STATUS_INTERNAL_SERVER_ERROR: u16 = 500;

/// What was looked for when nothing was found.
#[derive(Clone, Copy, Debug, PartialEq, Eq, Structural)]
pub enum NotFoundKind {
    User,
    Session,
    Data,
}

/// Every way in which an operation of the service can fail.
#[derive(Debug, PartialEq, Eq)]
pub enum AppError {
    /// The input was rejected; the detail says why.
    ValidationError(String),
    /// The username or the email address belongs to another account.
    AlreadyExists,
    /// Nothing matched the request.
    NotFound(NotFoundKind),
    /// No valid session, or wrong credentials.
    Unauthorized,
    /// The store accepted the write of a session but reported no row.
    CannotIssueSession,
    /// The store or the credential hasher failed.
    InternalServer,
}

impl Clone for AppError {
    fn clone(&self) -> (copy: Self)
        ensures
            copy == *self,
    {
        match self {
            AppError::ValidationError(detail) => AppError::ValidationError(detail.clone()),
            AppError::AlreadyExists => AppError::AlreadyExists,
            AppError::NotFound(kind) => AppError::NotFound(*kind),
            AppError::Unauthorized => AppError::Unauthorized,
            AppError::CannotIssueSession => AppError::CannotIssueSession,
            AppError::InternalServer => AppError::InternalServer,
        }
    }
}

/// An [`AppError`] with its detail as a sequence of characters.
pub enum AppErrorView {
    ValidationError(Seq<char>),
    AlreadyExists,
    NotFound(NotFoundKind),
    Unauthorized,
    CannotIssueSession,
    InternalServer,
}

impl View for AppError {
    type V = AppErrorView;

    open spec fn view(&self) -> AppErrorView {
        match *self {
            AppError::ValidationError(detail) => AppErrorView::ValidationError(detail@),
            AppError::AlreadyExists => AppErrorView::AlreadyExists,
            AppError::NotFound(kind) => AppErrorView::NotFound(kind),
            AppError::Unauthorized => AppErrorView::Unauthorized,
            AppError::CannotIssueSession => AppErrorView::CannotIssueSession,
            AppError::InternalServer => AppErrorView::InternalServer,
        }
    }
}

impl AppErrorView {
    /// The status code that a client sees for this error.
    pub open spec fn status(self) -> u16 {
        match self {
            AppErrorView::ValidationError(_) => STATUS_BAD_REQUEST,
            AppErrorView::AlreadyExists => STATUS_FOUND,
            AppErrorView::NotFound(_) => STATUS_NOT_FOUND,
            AppErrorView::Unauthorized => STATUS_UNAUTHORIZED,
            AppErrorView::CannotIssueSession => STATUS_INTERNAL_SERVER_ERROR,
            AppErrorView::InternalServer => STATUS_INTERNAL_SERVER_ERROR,
        }
    }

    /// The message that a client sees for this error.
    pub open spec fn message(self) -> Seq<char> {
        match self {
            AppErrorView::ValidationError(detail) => detail,
            AppErrorView::AlreadyExists => "User already registered!"@,
            AppErrorView::NotFound(NotFoundKind::User) => "User NOT found!"@,
            AppErrorView::NotFound(NotFoundKind::Session) => "Session NOT found!"@,
            AppErrorView::NotFound(NotFoundKind::Data) => "Data NOT found!"@,
            AppErrorView::Unauthorized => "Unauthorized!"@,
            AppErrorView::CannotIssueSession => "Can NOT create the session!"@,
            AppErrorView::InternalServer => "Internal Server Error!"@,
        }
    }

    /// The reply that a client sees for this error: the status, no cookie, and
    /// a body that repeats the status beside the message.
    pub open spec fn reply(self) -> ReplyView {
        ReplyView {
            status: self.status(),
            set_cookie: None,
            body: BodyView::Error { error: self.message(), status: self.status() },
        }
    }
}

impl AppError {
    /// The status code of this error.
    pub fn status_code(&self) -> (code: u16)
        ensures
            code == self@.status(),
    {
        match self {
            AppError::ValidationError(_) => STATUS_BAD_REQUEST,
            AppError::AlreadyExists => STATUS_FOUND,
            AppError::NotFound(_) => STATUS_NOT_FOUND,
            AppError::Unauthorized => STATUS_UNAUTHORIZED,
            AppError::CannotIssueSession => STATUS_INTERNAL_SERVER_ERROR,
            AppError::InternalServer => STATUS_INTERNAL_SERVER_ERROR,
        }
    }

    /// The message of this error.
    pub fn message(&self) -> (text: String)
        ensures
            text@ == self@.message(),
    {
        match self {
            AppError::ValidationError(detail) => detail.clone(),
            AppError::AlreadyExists => String::from_str("User already registered!"),
            AppError::NotFound(NotFoundKind::User) => String::from_str("User NOT found!"),
            AppError::NotFound(NotFoundKind::Session) => String::from_str("Session NOT found!"),
            AppError::NotFound(NotFoundKind::Data) => String::from_str("Data NOT found!"),
            AppError::Unauthorized => String::from_str("Unauthorized!"),
            AppError::CannotIssueSession => String::from_str("Can NOT create the session!"),
            AppError::InternalServer => String::from_str("Internal Server Error!"),
        }
    }

    /// Turns the error into the reply for the client.
    pub fn into_response(self) -> (reply: Reply)
        ensures
            reply@ == self@.reply(),
    {
        let status = self.status_code();
        let error = self.message();
        Reply { status, set_cookie: None, body: Body::Error { error, status } }
    }
}

/// The view of a result whose error is an [`AppError`] and whose value has a view.
pub open spec fn result_view<T: View>(r: Result<T, AppError>) -> Result<T::V, AppErrorView> {
    match r {
        Ok(value) => Ok(value@),
        Err(e) => Err(e@),
    }
}

/// The view of a result without a value.
pub open spec fn unit_result_view(r: Result<(), AppError>) -> Result<(), AppErrorView> {
    match r {
        Ok(()) => Ok(()),
        Err(e) => Err(e@),
    }
}

} // verus!
