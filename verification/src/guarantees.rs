//! What holds of the service whatever the store holds and whatever the
//! requests are, stated over the models that the operations are specified
//! with.

use vstd::prelude::*;
use crate::clock::{expiry_fits, SESSION_TTL_SECS};
use crate::db::sessions::{
    first_answer, is_first_answer, is_session_of, lemma_delete, lemma_first_answer,
    lemma_same_first_answer, lemma_session_index, lemma_upsert, session_index,
    sessions_after_upsert,
};
use crate::db::tasks::{lemma_task_delete, lemma_task_insert, lemma_task_update, owned_by};
use crate::db::users::{
    lemma_deactivate, lemma_index_of, lemma_insert, lemma_update_information,
    lemma_update_password,
};
use crate::db::DatabaseView;
use crate::error::{
    AppErrorView, NotFoundKind, STATUS_BAD_REQUEST, STATUS_FOUND, STATUS_UNAUTHORIZED,
};
use crate::handlers::user::{ends_with_session, logs_in, registers, session_reply};
use crate::hasher::{hashed, is_hashable, is_salt_for, password_check, verifies, PasswordCheck};
use crate::middlewares::auth::{guarded, AdmissionView};
use crate::modules::task::{CreateDtoView as NewTaskView, TaskView, UpdateDtoView};
use crate::modules::user::{
    password_verdict, CreateDtoView, DeleteDtoView, LoginDtoView, UpdateInformationDtoView,
    UpdatePasswordDtoView, UserView,
};
use crate::reply::{BodyView, ReplyView, STATUS_CREATED, STATUS_OK};
use crate::services::auth::{is_token_text, session_cookie};
use crate::services::task::{changed_columns, names_a_field, new_columns};
use crate::services::user::{bad_request, planned_account, planned_change, planned_password};
use crate::validation::validated;

verus! {

/// A registration keeps the store well-formed.
pub proof fn register_keeps_the_store_well_formed(
    db: DatabaseView,
    dto: CreateDtoView,
    salt: Seq<char>,
    now: u64,
)
    requires
        db.wf(),
    ensures
        db.register(dto, salt, now).0.wf(),
{
    if planned_account(dto, salt) is Ok {
        let account = planned_account(dto, salt)->Ok_0;
        lemma_insert(
            db.users,
            account.name,
            account.email,
            account.username,
            account.password,
            account.salt,
            now,
        );
    }
}

/// A change of information keeps the store well-formed.
pub proof fn update_information_keeps_the_store_well_formed(
    db: DatabaseView,
    dto: UpdateInformationDtoView,
    user: UserView,
    now: u64,
)
    requires
        db.wf(),
    ensures
        db.update_information(dto, user, now).0.wf(),
{
    if planned_change(dto, user) is Ok {
        let change = planned_change(dto, user)->Ok_0;
        lemma_update_information(
            db.users,
            user.id,
            change.email,
            change.name,
            change.username,
            now,
        );
    }
}

/// A change of password keeps the store well-formed.
pub proof fn update_password_keeps_the_store_well_formed(
    db: DatabaseView,
    dto: UpdatePasswordDtoView,
    user: UserView,
    salt: Seq<char>,
    now: u64,
)
    requires
        db.wf(),
    ensures
        db.update_password(dto, user, salt, now).0.wf(),
{
    if planned_password(dto, user, salt) is Ok {
        let new = planned_password(dto, user, salt)->Ok_0;
        lemma_update_password(db.users, user.id, new.password, new.salt, now);
    }
}

/// Closing an account keeps the store well-formed.
pub proof fn close_keeps_the_store_well_formed(
    db: DatabaseView,
    dto: DeleteDtoView,
    user: UserView,
    now: u64,
)
    requires
        db.wf(),
    ensures
        db.close(dto, user, now).0.wf(),
{
    lemma_deactivate(db.users, user.id, now);
}

/// Issuing a session and revoking one keep the store well-formed.
pub proof fn sessions_keep_the_store_well_formed(
    db: DatabaseView,
    user_id: i32,
    token: Seq<char>,
    now: u64,
)
    requires
        db.wf(),
    ensures
        db.issue(user_id, token, now).0.wf(),
        db.with_session(user_id, token, now).wf(),
        db.without_session(user_id).wf(),
{
    lemma_upsert(db.sessions, user_id, token, now);
    lemma_delete(db.sessions, user_id);
}

/// Creating, changing and deleting a task keep the store well-formed.
pub proof fn tasks_keep_the_store_well_formed(
    db: DatabaseView,
    new: NewTaskView,
    change: UpdateDtoView,
    id: i32,
    user_id: i32,
    now: u64,
)
    requires
        db.wf(),
    ensures
        db.create_task(new, user_id, now).0.wf(),
        db.change_task(change, id, user_id, now).0.wf(),
        db.remove_task(id, user_id).0.wf(),
{
    let columns = new_columns(new);
    lemma_task_insert(
        db.tasks,
        user_id,
        columns.title,
        columns.body,
        columns.state,
        columns.priority,
        now,
    );
    if changed_columns(change) is Ok {
        let columns = changed_columns(change)->Ok_0;
        lemma_task_update(
            db.tasks,
            id,
            user_id,
            columns.title,
            columns.body,
            columns.state,
            columns.priority,
            true,
            now,
        );
    }
    lemma_task_delete(db.tasks, id, user_id);
}

/// Where no session carries a token and is valid, the token resolves to
/// "no session".
pub proof fn lemma_no_answer(db: DatabaseView, token: Seq<char>, now: u64)
    requires
        forall|i: int|
            0 <= i < db.sessions.len() ==> !(#[trigger] db.sessions[i]).answers(token, now),
    ensures
        db.resolve(token, now) == Err::<UserView, AppErrorView>(
            AppErrorView::NotFound(NotFoundKind::Session),
        ),
{
    assert forall|i: int| !is_first_answer(db.sessions, token, now, i) by {
        if 0 <= i < db.sessions.len() {
            assert(!db.sessions[i].answers(token, now));
        }
    }
}

/// Issuing a session writes it and answers with its token, at every moment
/// whose expiry the store can hold; at any other the store fails, nothing
/// is written, and the answer is an internal error.
pub proof fn issue_writes_the_session(db: DatabaseView, user_id: i32, token: Seq<char>, now: u64)
    ensures
        expiry_fits(now) ==> db.issue(user_id, token, now) == (
            db.with_session(user_id, token, now),
            Ok::<Seq<char>, AppErrorView>(token),
        ),
        !expiry_fits(now) ==> db.issue(user_id, token, now) == (
            db,
            Err::<Seq<char>, AppErrorView>(AppErrorView::InternalServer),
        ),
{
}

/// Issuing a session to a user, with or without a session, leaves exactly
/// one row for the user, which carries the new token and expires seven
/// days after the issue; the sessions of all other users are as before.
pub proof fn issue_leaves_one_session_for_the_user(
    db: DatabaseView,
    user_id: i32,
    token: Seq<char>,
    now: u64,
)
    requires
        db.wf(),
        expiry_fits(now),
    ensures
        ({
            let after = db.issue(user_id, token, now);
            &&& after.1 == Ok::<Seq<char>, AppErrorView>(token)
            &&& after.0.users == db.users
            &&& after.0.tasks == db.tasks
            &&& session_index(after.0.sessions, user_id) matches Some(k)
                && after.0.sessions[k].token == token && after.0.sessions[k].expires_at == now
                + SESSION_TTL_SECS
            &&& forall|i: int, j: int|
                is_session_of(after.0.sessions, user_id, i) && is_session_of(
                    after.0.sessions,
                    user_id,
                    j,
                ) ==> i == j
            &&& forall|i: int|
                0 <= i < after.0.sessions.len() && (#[trigger] after.0.sessions[i]).user_id
                    != user_id ==> i < db.sessions.len() && after.0.sessions[i] == db.sessions[i]
        }),
{
    lemma_upsert(db.sessions, user_id, token, now);
    let after = db.issue(user_id, token, now);
    let k = choose|k: int| is_session_of(after.0.sessions, user_id, k);
    assert(is_session_of(after.0.sessions, user_id, k));
    lemma_session_index(after.0.sessions, user_id, k);
    assert forall|i: int, j: int|
        is_session_of(after.0.sessions, user_id, i) && is_session_of(
            after.0.sessions,
            user_id,
            j,
        ) implies i == j by {
        if i < j {
            assert(after.0.sessions[i].user_id != after.0.sessions[j].user_id);
        } else if j < i {
            assert(after.0.sessions[j].user_id != after.0.sessions[i].user_id);
        }
    }
}

/// A session that was written for a user is gone with the user's session:
/// deleting the session of a user after it was written leaves what deleting
/// it before would have left.
pub proof fn lemma_delete_after_upsert(db: DatabaseView, user_id: i32, token: Seq<char>, now: u64)
    requires
        db.wf(),
    ensures
        db.with_session(user_id, token, now).without_session(user_id) == db.without_session(
            user_id,
        ),
{
    let after = db.with_session(user_id, token, now);
    match session_index(db.sessions, user_id) {
        Some(k) => {
            assert(is_session_of(db.sessions, user_id, k));
            assert(is_session_of(after.sessions, user_id, k));
            lemma_upsert(db.sessions, user_id, token, now);
            lemma_session_index(after.sessions, user_id, k);
            assert(after.sessions.remove(k) =~= db.sessions.remove(k));
        },
        None => {
            let last = db.sessions.len() as int;
            assert(is_session_of(after.sessions, user_id, last));
            lemma_upsert(db.sessions, user_id, token, now);
            lemma_session_index(after.sessions, user_id, last);
            assert(after.sessions.remove(last) =~= db.sessions);
        },
    }
}

/// The session of a user answers for its own token only: once a session
/// with `token` has been written for a user, every other token resolves as
/// it does in the store without any session of this user.
pub proof fn lemma_other_tokens_pass_by(
    db: DatabaseView,
    user_id: i32,
    token: Seq<char>,
    now: u64,
    other: Seq<char>,
    later: u64,
)
    requires
        db.wf(),
        other != token,
    ensures
        db.with_session(user_id, token, now).resolve(other, later) == db.without_session(
            user_id,
        ).resolve(other, later),
{
    lemma_upsert(db.sessions, user_id, token, now);
    let after = db.with_session(user_id, token, now);
    let without = db.without_session(user_id);
    let gap = choose|i: int| is_session_of(after.sessions, user_id, i);
    assert(is_session_of(after.sessions, user_id, gap));
    assert(!after.sessions[gap].answers(other, later));
    assert forall|i: int| 0 <= i < after.sessions.len() && i != gap implies (
    #[trigger] after.sessions[i]).user_id != user_id && i < db.sessions.len() && after.sessions[i]
        == db.sessions[i] by {
        if i < gap {
            assert(after.sessions[i].user_id != after.sessions[gap].user_id);
        } else {
            assert(after.sessions[gap].user_id != after.sessions[i].user_id);
        }
    }
    match session_index(db.sessions, user_id) {
        Some(k) => {
            assert(is_session_of(db.sessions, user_id, k));
            assert(after.sessions.len() == db.sessions.len());
            if gap != k {
                assert(after.sessions[k].user_id == user_id);
                assert(false);
            }
            assert(without.sessions =~= db.sessions.remove(k));
        },
        None => {
            let last = db.sessions.len() as int;
            assert(after.sessions.len() == last + 1);
            if gap != last {
                assert(after.sessions[gap] == db.sessions[gap]);
                assert(is_session_of(db.sessions, user_id, gap));
                assert(false);
            }
            assert(without.sessions == db.sessions);
        },
    }
    lemma_same_first_answer(after.sessions, without.sessions, gap, other, later);
}

/// The overwritten token resolves as if its user had no session: once a
/// user has been issued a session with another token, resolving the earlier
/// token answers what it answers in the store without any session of this
/// user, at any time.
pub proof fn overwritten_token_resolves_as_without_session(
    db: DatabaseView,
    user_id: i32,
    first: Seq<char>,
    second: Seq<char>,
    first_issued: u64,
    second_issued: u64,
    later: u64,
)
    requires
        db.wf(),
        first != second,
    ensures
        ({
            let once = db.issue(user_id, first, first_issued).0;
            let twice = once.issue(user_id, second, second_issued);
            twice.1 is Ok ==> twice.0.resolve(first, later) == db.without_session(
                user_id,
            ).resolve(first, later)
        }),
{
    let once = db.issue(user_id, first, first_issued).0;
    let twice = once.issue(user_id, second, second_issued);
    if twice.1 is Ok {
        if expiry_fits(first_issued) {
            lemma_upsert(db.sessions, user_id, first, first_issued);
            lemma_delete_after_upsert(db, user_id, first, first_issued);
        }
        lemma_other_tokens_pass_by(once, user_id, second, second_issued, first, later);
    }
}

/// A token that was overwritten no longer leads to its user: once the user
/// has been issued a session with another token, the earlier token resolves
/// through no session of this user, at any time.
pub proof fn overwritten_token_never_resolves_to_its_user(
    db: DatabaseView,
    user_id: i32,
    first: Seq<char>,
    second: Seq<char>,
    first_issued: u64,
    second_issued: u64,
    later: u64,
)
    requires
        db.wf(),
        first != second,
    ensures
        ({
            let once = db.issue(user_id, first, first_issued).0;
            let twice = once.issue(user_id, second, second_issued);
            twice.1 is Ok ==> (first_answer(twice.0.sessions, first, later) matches Some(session)
                ==> session.user_id != user_id)
        }),
{
    let once = db.issue(user_id, first, first_issued).0;
    let twice = once.issue(user_id, second, second_issued);
    if twice.1 is Ok {
        if expiry_fits(first_issued) {
            lemma_upsert(db.sessions, user_id, first, first_issued);
        }
        lemma_upsert(once.sessions, user_id, second, second_issued);
        if exists|i: int| is_first_answer(twice.0.sessions, first, later, i) {
            let k = choose|i: int| is_first_answer(twice.0.sessions, first, later, i);
            assert(twice.0.sessions[k].answers(first, later));
        }
    }
}

/// Issuing a session to a user who has one overwrites the token: where no
/// other user's session carries the earlier token, that token fails to
/// resolve from then on.
pub proof fn overwritten_token_fails_to_resolve(
    db: DatabaseView,
    user_id: i32,
    first: Seq<char>,
    second: Seq<char>,
    first_issued: u64,
    second_issued: u64,
    later: u64,
)
    requires
        db.wf(),
        first != second,
        forall|i: int|
            0 <= i < db.sessions.len() && (#[trigger] db.sessions[i]).user_id != user_id
                ==> db.sessions[i].token != first,
    ensures
        ({
            let once = db.issue(user_id, first, first_issued).0;
            let twice = once.issue(user_id, second, second_issued);
            twice.1 is Ok ==> twice.0.resolve(first, later) == Err::<UserView, AppErrorView>(
                AppErrorView::NotFound(NotFoundKind::Session),
            )
        }),
{
    let once = db.issue(user_id, first, first_issued).0;
    let twice = once.issue(user_id, second, second_issued);
    if twice.1 is Ok {
        if expiry_fits(first_issued) {
            lemma_upsert(db.sessions, user_id, first, first_issued);
        }
        lemma_upsert(once.sessions, user_id, second, second_issued);
        let after = twice.0;
        assert forall|i: int| 0 <= i < after.sessions.len() implies !(
        #[trigger] after.sessions[i]).answers(first, later) by {
            if after.sessions[i].user_id != user_id {
                assert(after.sessions[i] == once.sessions[i]);
                assert(once.sessions[i] == db.sessions[i]);
            }
        }
        lemma_no_answer(after, first, later);
    }
}

/// A session whose expiry has elapsed fails to resolve, though its row is
/// still in the table: where every session that carries the token expired
/// at or before `now`, the token resolves to "no session".
pub proof fn expired_session_fails_to_resolve(db: DatabaseView, token: Seq<char>, now: u64)
    requires
        forall|i: int|
            0 <= i < db.sessions.len() && (#[trigger] db.sessions[i]).token == token
                ==> db.sessions[i].expires_at <= now,
    ensures
        db.resolve(token, now) == Err::<UserView, AppErrorView>(
            AppErrorView::NotFound(NotFoundKind::Session),
        ),
{
    lemma_no_answer(db, token, now);
}

/// Resolution never answers through a session that has expired: the user
/// that a token resolves to at `now` owns a session that carries the token
/// and expires after `now`.
pub proof fn resolution_needs_a_live_session(db: DatabaseView, token: Seq<char>, now: u64)
    requires
        db.wf(),
    ensures
        db.resolve(token, now) matches Ok(user) ==> exists|i: int|
            0 <= i < db.sessions.len() && (#[trigger] db.sessions[i]).user_id == user.id
                && db.sessions[i].token == token && db.sessions[i].expires_at > now,
{
    if db.resolve(token, now) is Ok {
        let i = choose|i: int| is_first_answer(db.sessions, token, now, i);
        let k = choose|k: int| db.users.holds(db.sessions[i].user_id, k);
        assert(db.users.holds(db.sessions[i].user_id, k));
        assert(db.sessions[i].expires_at > now);
    }
}

/// A session that was issued at `issued` is still in the table seven days
/// later and fails to resolve from then on, where no other user's session
/// carries its token.
pub proof fn session_expires_after_its_lifetime(
    db: DatabaseView,
    user_id: i32,
    token: Seq<char>,
    issued: u64,
    later: u64,
)
    requires
        db.wf(),
        issued + SESSION_TTL_SECS <= later,
        forall|i: int|
            0 <= i < db.sessions.len() && (#[trigger] db.sessions[i]).user_id != user_id
                ==> db.sessions[i].token != token,
    ensures
        db.issue(user_id, token, issued).1 is Ok,
        session_index(db.issue(user_id, token, issued).0.sessions, user_id) is Some,
        db.issue(user_id, token, issued).0.resolve(token, later) == Err::<UserView, AppErrorView>(
            AppErrorView::NotFound(NotFoundKind::Session),
        ),
{
    lemma_upsert(db.sessions, user_id, token, issued);
    let after = db.issue(user_id, token, issued).0;
    assert forall|i: int| 0 <= i < after.sessions.len() implies !(
    #[trigger] after.sessions[i]).answers(token, later) by {
        if after.sessions[i].user_id != user_id {
            assert(after.sessions[i] == db.sessions[i]);
        }
    }
    lemma_no_answer(after, token, later);
}

/// A session that was issued resolves to its user until it expires, where
/// the user is active and no other user's session carries the same token.
pub proof fn issued_session_resolves_to_its_user(
    db: DatabaseView,
    user: UserView,
    token: Seq<char>,
    issued: u64,
    later: u64,
)
    requires
        db.wf(),
        db.users.active_user(user.id) == Some(user),
        later < issued + SESSION_TTL_SECS <= u64::MAX,
        forall|i: int|
            0 <= i < db.sessions.len() && (#[trigger] db.sessions[i]).user_id != user.id
                ==> db.sessions[i].token != token,
    ensures
        db.issue(user.id, token, issued).0.resolve(token, later) == Ok::<UserView, AppErrorView>(
            user,
        ),
{
    lemma_upsert(db.sessions, user.id, token, issued);
    let after = db.issue(user.id, token, issued).0;
    let k = choose|i: int| is_session_of(after.sessions, user.id, i);
    assert(is_session_of(after.sessions, user.id, k));
    assert(after.sessions[k].answers(token, later));
    assert forall|j: int| 0 <= j < k implies !(#[trigger] after.sessions[j]).answers(
        token,
        later,
    ) by {
        assert(after.sessions[j].user_id != after.sessions[k].user_id);
        assert(after.sessions[j] == db.sessions[j]);
    }
    lemma_first_answer(after.sessions, token, later, k);
}

/// A session that was revoked fails to resolve at once: after a logout the
/// token of the user's session resolves to "no session", where no other
/// user's session carries it, and the guard rejects it as unauthorized.
pub proof fn revoked_session_fails_to_resolve(
    db: DatabaseView,
    user_id: i32,
    token: Seq<char>,
    now: u64,
)
    requires
        db.wf(),
        forall|i: int|
            0 <= i < db.sessions.len() && (#[trigger] db.sessions[i]).user_id != user_id
                ==> db.sessions[i].token != token,
    ensures
        db.without_session(user_id).resolve(token, now) == Err::<UserView, AppErrorView>(
            AppErrorView::NotFound(NotFoundKind::Session),
        ),
        guarded(Some(token), db.without_session(user_id), now) == AdmissionView::Reject(
            AppErrorView::Unauthorized,
        ),
{
    let after = db.without_session(user_id);
    match session_index(db.sessions, user_id) {
        Some(k) => {
            assert(is_session_of(db.sessions, user_id, k));
            assert forall|i: int| 0 <= i < after.sessions.len() implies !(
            #[trigger] after.sessions[i]).answers(token, now) by {
                let j = if i < k {
                    i
                } else {
                    i + 1
                };
                assert(after.sessions[i] == db.sessions[j]);
                if j < k {
                    assert(db.sessions[j].user_id != db.sessions[k].user_id);
                } else {
                    assert(db.sessions[k].user_id != db.sessions[j].user_id);
                }
            }
        },
        None => {
            assert forall|i: int| 0 <= i < after.sessions.len() implies !(
            #[trigger] after.sessions[i]).answers(token, now) by {
                assert(!is_session_of(db.sessions, user_id, i));
            }
        },
    }
    lemma_no_answer(after, token, now);
}

/// The guard rejects a request without a session cookie as unauthorized.
pub proof fn guard_rejects_missing_cookie(db: DatabaseView, now: u64)
    ensures
        guarded(None, db, now) == AdmissionView::Reject(AppErrorView::Unauthorized),
        AppErrorView::Unauthorized.status() == 401,
{
}

/// The guard rejects a token that no valid session carries as unauthorized,
/// be it unknown or expired, exactly as it rejects a missing cookie.
pub proof fn guard_rejects_unknown_and_expired_tokens(db: DatabaseView, token: Seq<char>, now: u64)
    requires
        forall|i: int|
            0 <= i < db.sessions.len() && (#[trigger] db.sessions[i]).token == token
                ==> db.sessions[i].expires_at <= now,
    ensures
        guarded(Some(token), db, now) == AdmissionView::Reject(AppErrorView::Unauthorized),
        guarded(Some(token), db, now) == guarded(None, db, now),
{
    expired_session_fails_to_resolve(db, token, now);
}

/// The guard lets a request with a valid token proceed, and the identity is
/// the active user who owns the session that carries the token.
pub proof fn guard_admits_owner_of_valid_session(
    db: DatabaseView,
    token: Seq<char>,
    now: u64,
    i: int,
    owner: UserView,
)
    requires
        is_first_answer(db.sessions, token, now, i),
        db.users.active_user(db.sessions[i].user_id) == Some(owner),
    ensures
        guarded(Some(token), db, now) == AdmissionView::Proceed(owner),
        owner.id == db.sessions[i].user_id,
{
    let k = choose|k: int| db.users.holds(db.sessions[i].user_id, k);
    assert(db.users.holds(db.sessions[i].user_id, k));
    lemma_first_answer(db.sessions, token, now, i);
}

/// The guard admits or rejects as unauthorized; it answers with an internal
/// error for no cookie and no state of the store.
pub proof fn guard_is_two_valued(db: DatabaseView, cookie: Option<Seq<char>>, now: u64)
    ensures
        guarded(cookie, db, now) is Proceed || guarded(cookie, db, now) == AdmissionView::Reject(
            AppErrorView::Unauthorized,
        ),
{
}

/// A password that passes validation is short enough for the hasher, so
/// that hashing it with a generated salt derives a digest.
pub proof fn accepted_password_is_hashable(password: Seq<char>, salt: Seq<char>)
    ensures
        password_verdict(password) is Ok ==> is_hashable(password),
        password_verdict(password) is Ok && is_salt_for(salt, password) ==> hashed(
            password,
            salt,
        ) is Ok,
{
}

/// Registering a username twice: the first registration succeeds where
/// neither the username nor the email address is taken and the table has an
/// identifier left; a second one with the same username is answered with
/// "already exists", with the status 302 and not with an internal error,
/// and writes nothing. Both hold for passwords that the hasher takes and
/// for salts as the services generate them.
pub proof fn second_registration_already_exists(
    db: DatabaseView,
    first: CreateDtoView,
    second: CreateDtoView,
    first_salt: Seq<char>,
    second_salt: Seq<char>,
    first_now: u64,
    second_now: u64,
)
    requires
        db.wf(),
        first.username == second.username,
        is_hashable(first.password),
        is_hashable(second.password),
    ensures
        ({
            let once = db.register(first, first_salt, first_now);
            let twice = once.0.register(second, second_salt, second_now);
            &&& (is_salt_for(first_salt, first.password) && !db.users.taken(
                first.username,
                first.email,
            ) && db.users.next_id <= i32::MAX) ==> once.1 is Ok
            &&& (once.1 is Ok && is_salt_for(second_salt, second.password)) ==> {
                &&& twice.1 == Err::<UserView, AppErrorView>(AppErrorView::AlreadyExists)
                &&& twice.0 == once.0
            }
            &&& AppErrorView::AlreadyExists.status() == STATUS_FOUND
        }),
{
    let once = db.register(first, first_salt, first_now);
    if once.1 is Ok {
        let account = planned_account(first, first_salt)->Ok_0;
        lemma_insert(
            db.users,
            account.name,
            account.email,
            account.username,
            account.password,
            account.salt,
            first_now,
        );
        let last = db.users.rows.len() as int;
        assert(once.0.users.rows[last].user.username == first.username);
        assert(once.0.users.conflicts(second.username, second.email, last));
    }
}

/// A valid request to register a username or an email address that is
/// taken is answered with "already exists": the status is 302, the body
/// says "User already registered!", there is no cookie, and neither an
/// account nor a session is written.
pub proof fn registration_of_a_taken_name_is_answered_with_found(
    before: DatabaseView,
    dto: CreateDtoView,
    now: u64,
    after: DatabaseView,
    reply: ReplyView,
)
    requires
        before.wf(),
        registers(before, dto, now, after, reply),
        validated(dto.errors()) is Ok,
        before.users.taken(dto.username, dto.email),
    ensures
        after == before,
        reply == AppErrorView::AlreadyExists.reply(),
        reply.status == 302,
        reply.set_cookie is None,
        reply.body == (BodyView::Error { error: "User already registered!"@, status: 302 }),
{
    assert(password_verdict(dto.password) is Ok);
}

/// A valid request to register a username and an email address that are
/// free is answered with the status 201 and the account of the request's
/// name, username and email address, without its digest; the table gains
/// that one row; and where the moment allows for an expiry, the reply
/// carries the cookie of a session that was issued to the account.
pub proof fn registration_of_a_free_name_is_created(
    before: DatabaseView,
    dto: CreateDtoView,
    now: u64,
    after: DatabaseView,
    reply: ReplyView,
)
    requires
        before.wf(),
        registers(before, dto, now, after, reply),
        validated(dto.errors()) is Ok,
        !before.users.taken(dto.username, dto.email),
        before.users.next_id <= i32::MAX,
        expiry_fits(now),
    ensures
        reply.status == 201,
        reply.body matches BodyView::User(shown) && shown.id == before.users.next_id
            && shown.name == dto.name && shown.username == dto.username && shown.email
            == dto.email,
        after.users.rows.len() == before.users.rows.len() + 1,
        after.users.index_of_username(dto.username) == Some(before.users.rows.len() as int),
        after.tasks == before.tasks,
        exists|token: Seq<char>|
            is_token_text(token) && reply.set_cookie == Some(session_cookie(token))
                && #[trigger] session_index(after.sessions, before.users.next_id as i32) is Some
                && after.sessions == sessions_after_upsert(
                before.sessions,
                before.users.next_id as i32,
                token,
                now,
            ),
        after.wf(),
{
    assert(password_verdict(dto.password) is Ok);
    let salt = choose|salt: Seq<char>|
        is_salt_for(salt, dto.password) && ends_with_session(
            (#[trigger] before.register(dto, salt, now)).0,
            before.register(dto, salt, now).1,
            STATUS_CREATED,
            now,
            after,
            reply,
        );
    let served = before.register(dto, salt, now);
    let account = planned_account(dto, salt)->Ok_0;
    lemma_insert(
        before.users,
        account.name,
        account.email,
        account.username,
        account.password,
        account.salt,
        now,
    );
    let user = served.1->Ok_0;
    let token = choose|token: Seq<char>|
        is_token_text(token) && after == (#[trigger] served.0.issue(user.id, token, now)).0
            && reply == session_reply(STATUS_CREATED, user, served.0.issue(user.id, token, now).1);
    lemma_upsert(before.sessions, user.id, token, now);
    let k = choose|k: int| is_session_of(after.sessions, user.id, k);
    assert(is_session_of(after.sessions, user.id, k));
}

/// A user who has registered can log in: where a registration succeeds and
/// the digest that was stored accepts the password, as every digest that
/// the hasher derives does, a login with the same username and password
/// answers the account.
pub proof fn registered_user_can_log_in(
    db: DatabaseView,
    dto: CreateDtoView,
    salt: Seq<char>,
    now: u64,
)
    requires
        db.wf(),
    ensures
        ({
            let after = db.register(dto, salt, now);
            let credentials = LoginDtoView { username: dto.username, password: dto.password };
            (after.1 matches Ok(user) && verifies(dto.password, user.password))
                ==> after.0.login(credentials) == after.1
        }),
{
    if planned_account(dto, salt) is Ok {
        let account = planned_account(dto, salt)->Ok_0;
        lemma_insert(
            db.users,
            account.name,
            account.email,
            account.username,
            account.password,
            account.salt,
            now,
        );
    }
}

/// A user who has changed the password logs in with the new one: where a
/// change of password succeeds for an active account and the digest that
/// was stored accepts the new password, as every digest that the hasher
/// derives does, a login with the username and the new password answers
/// the account. No other account and no session has changed.
pub proof fn changed_password_logs_in(
    db: DatabaseView,
    dto: UpdatePasswordDtoView,
    user: UserView,
    salt: Seq<char>,
    now: u64,
    i: int,
)
    requires
        db.wf(),
        db.users.holds(user.id, i),
        db.users.rows[i].active,
    ensures
        ({
            let after = db.update_password(dto, user, salt, now);
            let credentials = LoginDtoView {
                username: db.users.rows[i].user.username,
                password: dto.password,
            };
            after.1 is Ok ==> {
                &&& after.0.users.index_of(user.id) == Some(i)
                &&& after.0.sessions == db.sessions
                &&& after.0.tasks == db.tasks
                &&& forall|j: int|
                    0 <= j < db.users.rows.len() && j != i ==> after.0.users.rows[j]
                        == db.users.rows[j]
                &&& verifies(dto.password, after.0.users.rows[i].user.password)
                    ==> after.0.login(credentials) == Ok::<UserView, AppErrorView>(
                    after.0.users.rows[i].user,
                ) && after.0.users.rows[i].user.id == user.id
            }
        }),
{
    lemma_index_of(db.users, user.id, i);
    if planned_password(dto, user, salt) is Ok {
        let new = planned_password(dto, user, salt)->Ok_0;
        lemma_update_password(db.users, user.id, new.password, new.salt, now);
    }
}

/// A valid login with the username of an active account and a password
/// that its digest accepts is answered with the status 200 and the account,
/// without its digest; where the moment allows for an expiry, the reply
/// carries the cookie of a session that was issued to the account, and
/// nothing else in the store has changed.
pub proof fn accepted_login_is_answered_with_a_session(
    before: DatabaseView,
    dto: LoginDtoView,
    now: u64,
    after: DatabaseView,
    reply: ReplyView,
    user: UserView,
)
    requires
        before.wf(),
        logs_in(before, dto, now, after, reply),
        validated(dto.errors()) is Ok,
        before.login(dto) == Ok::<UserView, AppErrorView>(user),
        expiry_fits(now),
    ensures
        reply.status == 200,
        reply.body == BodyView::User(user.public()),
        after.users == before.users,
        after.tasks == before.tasks,
        exists|token: Seq<char>|
            is_token_text(token) && reply.set_cookie == Some(session_cookie(token))
                && after.sessions == #[trigger] sessions_after_upsert(
                before.sessions,
                user.id,
                token,
                now,
            ),
        after.wf(),
{
    let token = choose|token: Seq<char>|
        is_token_text(token) && after == (#[trigger] before.issue(user.id, token, now)).0 && reply
            == session_reply(STATUS_OK, user, before.issue(user.id, token, now).1);
    lemma_upsert(before.sessions, user.id, token, now);
}

/// A login with an unknown username and a login with a known username and
/// a wrong password are answered alike: both are unauthorized, with the
/// same status and the same reply.
pub proof fn failed_logins_look_alike(db: DatabaseView, unknown: LoginDtoView, wrong: LoginDtoView)
    requires
        db.wf(),
        db.users.index_of_username(unknown.username) is None,
    ensures
        db.login(unknown) == Err::<UserView, AppErrorView>(AppErrorView::Unauthorized),
        (db.users.active_by_username(wrong.username) matches Ok(user) && password_check(
            wrong.password,
            user.password,
        ) == PasswordCheck::Mismatch) ==> {
            &&& db.login(wrong) == db.login(unknown)
            &&& db.login(wrong)->Err_0.status() == STATUS_UNAUTHORIZED
            &&& db.login(wrong)->Err_0.reply() == db.login(unknown)->Err_0.reply()
        },
{
}

/// An account that was closed is locked out: it is still in the store, a
/// login with its username is unauthorized whatever the password, and no
/// session of it resolves any more.
pub proof fn closed_account_is_locked_out(
    db: DatabaseView,
    dto: DeleteDtoView,
    user: UserView,
    now: u64,
    credentials: LoginDtoView,
    token: Seq<char>,
    later: u64,
    i: int,
)
    requires
        db.wf(),
        db.users.holds(user.id, i),
        credentials.username == db.users.rows[i].user.username,
    ensures
        ({
            let after = db.close(dto, user, now);
            after.1 is Ok ==> {
                &&& after.0.users.rows.len() == db.users.rows.len()
                &&& after.0.login(credentials) == Err::<UserView, AppErrorView>(
                    AppErrorView::Unauthorized,
                )
                &&& after.0.resolve(token, later) matches Ok(owner) ==> owner.id != user.id
            }
        }),
{
    let after = db.close(dto, user, now);
    if after.1 is Ok {
        lemma_index_of(db.users, user.id, i);
        lemma_deactivate(db.users, user.id, now);
        let users = after.0.users;
        if after.0.resolve(token, later) is Ok {
            let owner = after.0.resolve(token, later)->Ok_0;
            if owner.id == user.id {
                let k = choose|k: int| is_first_answer(after.0.sessions, token, later, k);
                let uid = after.0.sessions[k].user_id;
                let m = choose|m: int| users.holds(uid, m);
                assert(users.holds(uid, m));
                assert(users.holds(user.id, m));
                lemma_index_of(users, user.id, m);
                assert(false);
            }
        }
    }
}

/// A request to change the information of an account that leaves every
/// field as it is, is answered as a bad request, with the status 400, and
/// writes nothing.
pub proof fn update_without_change_is_rejected(
    db: DatabaseView,
    dto: UpdateInformationDtoView,
    user: UserView,
    now: u64,
)
    requires
        dto.name is None || dto.name == Some(user.name),
        dto.username is None || dto.username == Some(user.username),
        dto.email is None || dto.email == Some(user.email),
    ensures
        db.update_information(dto, user, now) == (
            db,
            Err::<UserView, AppErrorView>(bad_request()),
        ),
        bad_request().status() == STATUS_BAD_REQUEST,
{
}

/// A user is shown its own tasks and no others: every task that is listed
/// for a user belongs to that user, and every task of that user is listed.
pub proof fn tasks_are_listed_for_their_owner(db: DatabaseView, user_id: i32)
    ensures
        forall|i: int|
            0 <= i < db.tasks.of_user(user_id).len() ==> (#[trigger] db.tasks.of_user(
                user_id,
            )[i]).user_id == user_id,
        forall|j: int|
            0 <= j < db.tasks.rows.len() && (#[trigger] db.tasks.rows[j]).user_id == user_id
                ==> db.tasks.of_user(user_id).contains(db.tasks.rows[j]),
{
    let listed = db.tasks.of_user(user_id);
    assert forall|i: int| 0 <= i < listed.len() implies (#[trigger] listed[i]).user_id
        == user_id by {
        db.tasks.rows.lemma_filter_pred(owned_by(user_id), i);
    }
    assert forall|j: int|
        0 <= j < db.tasks.rows.len() && (#[trigger] db.tasks.rows[j]).user_id
            == user_id implies listed.contains(db.tasks.rows[j]) by {
        db.tasks.rows.lemma_filter_contains(owned_by(user_id), j);
    }
}

/// A user cannot change or delete the task of another: a request for a
/// task that belongs to someone else is answered as if the task did not
/// exist, and the store stays as it is.
pub proof fn tasks_of_others_are_out_of_reach(
    db: DatabaseView,
    dto: UpdateDtoView,
    id: i32,
    owner: i32,
    other: i32,
    i: int,
    now: u64,
)
    requires
        db.wf(),
        db.tasks.holds(id, owner, i),
        other != owner,
        names_a_field(dto),
    ensures
        db.change_task(dto, id, other, now) == (
            db,
            Err::<TaskView, AppErrorView>(AppErrorView::NotFound(NotFoundKind::Data)),
        ),
        db.remove_task(id, other) == (
            db,
            Err::<(), AppErrorView>(AppErrorView::NotFound(NotFoundKind::Data)),
        ),
{
    if exists|k: int| db.tasks.holds(id, other, k) {
        let k = choose|k: int| db.tasks.holds(id, other, k);
        if k < i {
            assert(db.tasks.rows[k].id != db.tasks.rows[i].id);
        } else if i < k {
            assert(db.tasks.rows[i].id != db.tasks.rows[k].id);
        }
        assert(false);
    }
}

} // verus!
