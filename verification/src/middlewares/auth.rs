//! The guard of the protected routes.
//!
//! A request starts out unauthenticated. The guard reads its session cookie,
//! resolves the token, and either admits the request with the identity of the
//! session's user or rejects it. Both ends are final for the request.

use vstd::prelude::*;
use crate::db::{Database, DatabaseView};
use crate::error::{result_view, AppError, AppErrorView};
use crate::modules::user::{User, UserView};
use crate::services::auth::get_user_by_session;
use crate::text::opt_text;

verus! {

/// What the guard does once it has looked for the session cookie.
#[derive(Debug, PartialEq, Eq)]
pub enum GuardStep {
    /// Resolve this token.
    Resolve(String),
    /// Reject the request: it carries no session cookie.
    Reject(AppError),
}

/// A [`GuardStep`] over sequences of characters.
pub enum GuardStepView {
    Resolve(Seq<char>),
    Reject(AppErrorView),
}

impl View for GuardStep {
    type V = GuardStepView;

    open spec fn view(&self) -> GuardStepView {
        match *self {
            GuardStep::Resolve(token) => GuardStepView::Resolve(token@),
            GuardStep::Reject(e) => GuardStepView::Reject(e@),
        }
    }
}

/// How the guard ends for a request.
#[derive(Debug, PartialEq, Eq)]
pub enum Admission {
    /// The request proceeds to its handler with this identity.
    Proceed(User),
    /// The request is answered with this error.
    Reject(AppError),
}

/// An [`Admission`] over sequences of characters.
pub enum AdmissionView {
    Proceed(UserView),
    Reject(AppErrorView),
}

impl View for Admission {
    type V = AdmissionView;

    open spec fn view(&self) -> AdmissionView {
        match *self {
            Admission::Proceed(user) => AdmissionView::Proceed(user@),
            Admission::Reject(e) => AdmissionView::Reject(e@),
        }
    }
}

/// The first step of the guard: a request without a session cookie is
/// rejected as unauthorized, and the token of any other is resolved.
pub open spec fn guard_step(cookie: Option<Seq<char>>) -> GuardStepView {
    match cookie {
        Some(token) => GuardStepView::Resolve(token),
        None => GuardStepView::Reject(AppErrorView::Unauthorized),
    }
}

/// The last step of the guard: the user of the session is admitted; a token
/// without a valid session is rejected as unauthorized, exactly as a missing
/// cookie is; every other failure is rejected as an internal error.
pub open spec fn guard_verdict(resolved: Result<UserView, AppErrorView>) -> AdmissionView {
    match resolved {
        Ok(user) => AdmissionView::Proceed(user),
        Err(AppErrorView::NotFound(_)) => AdmissionView::Reject(AppErrorView::Unauthorized),
        Err(_) => AdmissionView::Reject(AppErrorView::InternalServer),
    }
}

/// How the guard ends for a request with this cookie, on this store, at `now`.
pub open spec fn guarded(cookie: Option<Seq<char>>, db: DatabaseView, now: u64) -> AdmissionView {
    match guard_step(cookie) {
        GuardStepView::Resolve(token) => guard_verdict(db.resolve(token, now)),
        GuardStepView::Reject(e) => AdmissionView::Reject(e),
    }
}

/// Takes the first step of the guard on the value of the session cookie.
pub fn guard_start(cookie: Option<String>) -> (step: GuardStep)
    ensures
        step@ == guard_step(opt_text(cookie)),
{
    match cookie {
        Some(token) => GuardStep::Resolve(token),
        None => GuardStep::Reject(AppError::Unauthorized),
    }
}

/// Takes the last step of the guard on what resolving the token answered.
pub fn guard_finish(resolved: Result<User, AppError>) -> (admission: Admission)
    ensures
        admission@ == guard_verdict(result_view(resolved)),
{
    match resolved {
        Ok(user) => Admission::Proceed(user),
        Err(AppError::NotFound(_)) => Admission::Reject(AppError::Unauthorized),
        Err(_) => Admission::Reject(AppError::InternalServer),
    }
}

/// Guards a protected route: admits the request whose session cookie
/// resolves to a user, with that user as its identity, and rejects every
/// other.
pub fn auth_guard(cookie: Option<String>, db: &Database, now: u64) -> (admission: Admission)
    requires
        db.wf(),
    ensures
        admission@ == guarded(opt_text(cookie), db@, now),
{
    match guard_start(cookie) {
        GuardStep::Resolve(token) => guard_finish(get_user_by_session(token, db, now)),
        GuardStep::Reject(e) => Admission::Reject(e),
    }
}

} // verus!
