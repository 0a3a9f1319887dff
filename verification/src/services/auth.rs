//! Sessions: issuing one for a user, resolving a token to its user, revoking
//! the session of a user, and the cookie that carries a token.

use vstd::prelude::*;
use cookie::time::Duration;
use cookie::Cookie;
use uuid::Uuid;
use crate::clock::{expiry_fits, SESSION_TTL_SECS};
use crate::db::sessions::{
    session_index, sessions_after_delete, sessions_after_upsert, upserted,
};
use crate::db::{answer_view, rows_view, Database, DatabaseView, StoreFailure, StoreFailureView};
use crate::error::{result_view, unit_result_view, AppError, AppErrorView, NotFoundKind};
use crate::modules::user::{User, UserView};

verus! {

/// Whether `c` is a digit of lower-case hexadecimal.
pub open spec fn is_lower_hex(c: char) -> bool {
    '0' <= c <= '9' || 'a' <= c <= 'f'
}

/// The shape of a session token: a version 4 UUID in its hyphenated,
/// lower-case form.
pub open spec fn is_token_text(token: Seq<char>) -> bool {
    &&& token.len() == 36
    &&& forall|i: int|
        0 <= i < 36 ==> if i == 8 || i == 13 || i == 18 || i == 23 {
            #[trigger] token[i] == '-'
        } else {
            is_lower_hex(token[i])
        }
    &&& token[14] == '4'
    &&& (token[19] == '8' || token[19] == '9' || token[19] == 'a' || token[19] == 'b')
}

/// Calls `Uuid::new_v4` and renders the result. Every outcome has the shape
/// of a version 4 UUID; its 122 random bits are left open.
#[verifier::external_body]
fn fresh_token() -> (token: String)
    ensures
        is_token_text(token@),
{
    Uuid::new_v4().to_string()
}

/// Generates the token of one session.
pub fn new_token() -> (token: String)
    ensures
        is_token_text(token@),
{
    fresh_token()
}

/// The character of a decimal digit.
pub open spec fn digit_char(d: int) -> char {
    if d == 0 {
        '0'
    } else if d == 1 {
        '1'
    } else if d == 2 {
        '2'
    } else if d == 3 {
        '3'
    } else if d == 4 {
        '4'
    } else if d == 5 {
        '5'
    } else if d == 6 {
        '6'
    } else if d == 7 {
        '7'
    } else if d == 8 {
        '8'
    } else {
        '9'
    }
}

/// A natural number in decimal.
pub open spec fn decimal(n: nat) -> Seq<char>
    decreases n,
{
    if n < 10 {
        seq![digit_char(n as int)]
    } else {
        decimal(n / 10).push(digit_char((n % 10) as int))
    }
}

/// An integer in decimal.
pub open spec fn signed_decimal(n: int) -> Seq<char> {
    if n < 0 {
        seq!['-'] + decimal((-n) as nat)
    } else {
        decimal(n as nat)
    }
}

/// The value of a `Set-Cookie` header for a cookie with a path and a
/// maximal age: the pair, then the attributes in the order in which the
/// `cookie` crate writes them.
pub open spec fn cookie_text(
    name: Seq<char>,
    value: Seq<char>,
    path: Seq<char>,
    http_only: bool,
    secure: bool,
    max_age: i64,
) -> Seq<char> {
    name + "="@ + value + (if http_only {
        "; HttpOnly"@
    } else {
        Seq::<char>::empty()
    }) + (if secure {
        "; Secure"@
    } else {
        Seq::<char>::empty()
    }) + "; Path="@ + path + "; Max-Age="@ + signed_decimal(max_age as int)
}

/// Builds a cookie with `Cookie::build`, sets its path, its `HttpOnly` and
/// `Secure` flags and its maximal age in seconds, and renders it. The crate
/// writes `name=value`, then `; HttpOnly` and `; Secure` where the flag is
/// set, then `; Path=` with the path and `; Max-Age=` with the seconds in
/// decimal, and encodes nothing.
#[verifier::external_body]
fn render_cookie(
    name: &str,
    value: &str,
    path: &str,
    http_only: bool,
    secure: bool,
    max_age: i64,
) -> (text: String)
    ensures
        text@ == cookie_text(name@, value@, path@, http_only, secure, max_age),
{
    Cookie::build((name, value)).path(path).http_only(http_only).secure(secure).max_age(
        Duration::seconds(max_age),
    ).to_string()
}

/// The cookie that carries the token of a session: for every path, hidden
/// from scripts, sent over secure connections only, and kept as long as the
/// session lives.
pub open spec fn session_cookie(token: Seq<char>) -> Seq<char> {
    cookie_text("session"@, token, "/"@, true, true, SESSION_TTL_SECS as i64)
}

/// The cookie that makes a client drop its session: no value and no time
/// to live, for every path and hidden from scripts.
pub open spec fn deleted_cookie() -> Seq<char> {
    cookie_text("session"@, ""@, "/"@, true, false, 0)
}

/// The cookie that carries `session`: for every path, hidden from scripts,
/// sent over secure connections only, and kept for seven days.
pub fn build_cookie(session: String) -> (text: String)
    ensures
        text@ == session_cookie(session@),
        text@ == "session="@ + session@ + "; HttpOnly; Secure; Path=/; Max-Age=604800"@,
{
    let text = render_cookie("session", session.as_str(), "/", true, true, SESSION_TTL_SECS as i64);
    proof {
        reveal_strlit("session");
        reveal_strlit("/");
        reveal_strlit("=");
        reveal_strlit("; HttpOnly");
        reveal_strlit("; Secure");
        reveal_strlit("; Path=");
        reveal_strlit("; Max-Age=");
        reveal_strlit("session=");
        reveal_strlit("; HttpOnly; Secure; Path=/; Max-Age=604800");
        reveal_with_fuel(decimal, 7);
        assert(decimal(604800) =~= seq!['6', '0', '4', '8', '0', '0']);
        assert(text@ =~= "session="@ + session@ + "; HttpOnly; Secure; Path=/; Max-Age=604800"@);
    }
    text
}

/// The cookie that makes a client drop its session: no value and no time
/// to live.
pub fn build_deleted_cookie() -> (text: String)
    ensures
        text@ == deleted_cookie(),
        text@ == "session=; HttpOnly; Path=/; Max-Age=0"@,
{
    let text = render_cookie("session", "", "/", true, false, 0);
    proof {
        reveal_strlit("session");
        reveal_strlit("");
        reveal_strlit("/");
        reveal_strlit("=");
        reveal_strlit("; HttpOnly");
        reveal_strlit("; Path=");
        reveal_strlit("; Max-Age=");
        reveal_strlit("session=; HttpOnly; Path=/; Max-Age=0");
        assert(decimal(0) =~= seq!['0']);
        assert(text@ =~= "session=; HttpOnly; Path=/; Max-Age=0"@);
    }
    text
}

/// What issuing a session answers once the store has answered the write:
/// the token where a row was written, the failure to issue where none was,
/// and an internal error where the store failed.
pub open spec fn issued(session: Seq<char>, written: Result<u64, StoreFailureView>) -> Result<
    Seq<char>,
    AppErrorView,
> {
    match written {
        Ok(rows) => if rows > 0 {
            Ok(session)
        } else {
            Err(AppErrorView::CannotIssueSession)
        },
        Err(_) => Err(AppErrorView::InternalServer),
    }
}

/// What resolving a token answers once the store has answered the query:
/// the user, "no session" where no row came back, and an internal error
/// where the store failed otherwise.
pub open spec fn resolved(answer: Result<UserView, StoreFailureView>) -> Result<
    UserView,
    AppErrorView,
> {
    match answer {
        Ok(user) => Ok(user),
        Err(StoreFailureView::RowNotFound) => Err(AppErrorView::NotFound(NotFoundKind::Session)),
        Err(_) => Err(AppErrorView::InternalServer),
    }
}

/// What revoking a session answers once the store has answered the delete:
/// success where a row was deleted, "no session" where none was, and an
/// internal error where the store failed.
pub open spec fn revoked(deleted: Result<u64, StoreFailureView>) -> Result<(), AppErrorView> {
    match deleted {
        Ok(rows) => if rows > 0 {
            Ok(())
        } else {
            Err(AppErrorView::NotFound(NotFoundKind::Session))
        },
        Err(_) => Err(AppErrorView::InternalServer),
    }
}

/// The view of a result that holds a text.
pub open spec fn text_result_view(r: Result<String, AppError>) -> Result<Seq<char>, AppErrorView> {
    match r {
        Ok(text) => Ok(text@),
        Err(e) => Err(e@),
    }
}

/// Decides what issuing `session` answers from the store's answer to the write.
pub fn session_written(session: String, written: Result<u64, StoreFailure>) -> (outcome: Result<
    String,
    AppError,
>)
    ensures
        text_result_view(outcome) == issued(session@, rows_view(written)),
{
    match written {
        Ok(rows) => {
            if rows > 0 {
                Ok(session)
            } else {
                Err(AppError::CannotIssueSession)
            }
        },
        Err(_) => Err(AppError::InternalServer),
    }
}

/// Decides what resolving a token answers from the store's answer to the query.
pub fn session_resolved(answer: Result<User, StoreFailure>) -> (outcome: Result<User, AppError>)
    ensures
        result_view(outcome) == resolved(answer_view(answer)),
{
    match answer {
        Ok(user) => Ok(user),
        Err(StoreFailure::RowNotFound) => Err(AppError::NotFound(NotFoundKind::Session)),
        Err(_) => Err(AppError::InternalServer),
    }
}

/// Decides what revoking a session answers from the store's answer to the delete.
pub fn session_deleted(deleted: Result<u64, StoreFailure>) -> (outcome: Result<(), AppError>)
    ensures
        unit_result_view(outcome) == revoked(rows_view(deleted)),
{
    match deleted {
        Ok(rows) => {
            if rows > 0 {
                Ok(())
            } else {
                Err(AppError::NotFound(NotFoundKind::Session))
            }
        },
        Err(_) => Err(AppError::InternalServer),
    }
}

impl DatabaseView {
    /// The store after a session with `token` was issued to `user_id` at `now`.
    pub open spec fn with_session(self, user_id: i32, token: Seq<char>, now: u64) -> DatabaseView {
        DatabaseView {
            sessions: sessions_after_upsert(self.sessions, user_id, token, now),
            ..self
        }
    }

    /// The store and the answer after a session with `token` was issued to
    /// `user_id` at `now`.
    pub open spec fn issue(self, user_id: i32, token: Seq<char>, now: u64) -> (
        DatabaseView,
        Result<Seq<char>, AppErrorView>,
    ) {
        let after = upserted(self.sessions, user_id, token, now);
        (DatabaseView { sessions: after.0, ..self }, issued(token, after.1))
    }

    /// The store after the session of `user_id` was revoked.
    pub open spec fn without_session(self, user_id: i32) -> DatabaseView {
        DatabaseView { sessions: sessions_after_delete(self.sessions, user_id), ..self }
    }

    /// What resolving `token` at `now` answers.
    pub open spec fn resolve(self, token: Seq<char>, now: u64) -> Result<UserView, AppErrorView> {
        resolved(self.session_user(token, now))
    }

    /// What revoking the session of `user_id` answers.
    pub open spec fn revoke(self, user_id: i32) -> Result<(), AppErrorView> {
        if session_index(self.sessions, user_id) is Some {
            Ok(())
        } else {
            Err(AppErrorView::NotFound(NotFoundKind::Session))
        }
    }
}

/// Issues a session to the user `user_id`: generates a token, writes it over
/// the session that the user may have, with a new expiry, and answers with
/// the token. `username` names the account for the caller's records.
pub fn create_session(username: &str, user_id: i32, db: &mut Database, now: u64) -> (outcome:
    Result<String, AppError>)
    requires
        old(db).wf(),
    ensures
        final(db).wf(),
        exists|token: Seq<char>|
            is_token_text(token) && (final(db)@, text_result_view(outcome)) == #[trigger] old(
                db,
            )@.issue(user_id, token, now),
        expiry_fits(now) ==> (outcome matches Ok(token) && is_token_text(token@) && final(db)@
            == old(db)@.with_session(user_id, token@, now)),
{
    let session = new_token();
    let ghost token = session@;
    let written = db.sessions.upsert(user_id, session.clone(), now);
    let outcome = session_written(session, written);
    assert((db@, text_result_view(outcome)) == old(db)@.issue(user_id, token, now));
    outcome
}

/// Resolves a token to the user of the session that carries it. A session
/// that has expired, and one of an account that is no longer active,
/// resolves to "no session".
pub fn get_user_by_session(session: String, db: &Database, now: u64) -> (outcome: Result<
    User,
    AppError,
>)
    requires
        db.wf(),
    ensures
        result_view(outcome) == db@.resolve(session@, now),
{
    session_resolved(db.session_user(&session, now))
}

/// Revokes the session of the user `user_id`.
pub fn delete_session(user_id: i32, db: &mut Database) -> (outcome: Result<(), AppError>)
    requires
        old(db).wf(),
    ensures
        final(db).wf(),
        final(db)@ == old(db)@.without_session(user_id),
        unit_result_view(outcome) == old(db)@.revoke(user_id),
{
    let deleted = db.sessions.delete(user_id);
    session_deleted(deleted)
}

} // verus!
