use todolistify::clock::SESSION_TTL_SECS;
use todolistify::db::Database;
use todolistify::error::{AppError, NotFoundKind};
use todolistify::middlewares::auth::{auth_guard, guard_finish, guard_start, Admission, GuardStep};
use todolistify::modules::user::User;
use todolistify::services::auth::create_session;

fn store_with_alice() -> (Database, User, String) {
    let mut db = Database::new();
    let alice = db
        .users
        .insert(
            "Alice".to_string(),
            "alice@example.com".to_string(),
            "alice".to_string(),
            "digest".to_string(),
            "salt".to_string(),
            1_000,
        )
        .unwrap();
    let token = create_session(&alice.username, alice.id, &mut db, 1_000).unwrap();
    (db, alice, token)
}

#[test]
fn guard_rejects_request_without_cookie() {
    let (db, _alice, _token) = store_with_alice();
    let admission = auth_guard(None, &db, 1_001);
    assert_eq!(admission, Admission::Reject(AppError::Unauthorized));
    assert_eq!(AppError::Unauthorized.status_code(), 401);
}

#[test]
fn guard_rejects_unknown_token() {
    let (db, _alice, _token) = store_with_alice();
    let admission = auth_guard(Some("unknown".to_string()), &db, 1_001);
    assert_eq!(admission, Admission::Reject(AppError::Unauthorized));
}

#[test]
fn guard_rejects_expired_token() {
    let (db, _alice, token) = store_with_alice();
    let admission = auth_guard(Some(token), &db, 1_000 + SESSION_TTL_SECS);
    assert_eq!(admission, Admission::Reject(AppError::Unauthorized));
}

#[test]
fn guard_admits_valid_token_as_its_owner() {
    let (db, alice, token) = store_with_alice();
    let admission = auth_guard(Some(token), &db, 1_001);
    assert_eq!(admission, Admission::Proceed(alice));
}

#[test]
fn guard_rejects_empty_cookie_value() {
    let (db, _alice, _token) = store_with_alice();
    let admission = auth_guard(Some(String::new()), &db, 1_001);
    assert_eq!(admission, Admission::Reject(AppError::Unauthorized));
}

#[test]
fn guard_first_step_reads_the_cookie() {
    assert_eq!(guard_start(None), GuardStep::Reject(AppError::Unauthorized));
    assert_eq!(guard_start(Some("tok".to_string())), GuardStep::Resolve("tok".to_string()));
}

#[test]
fn guard_last_step_keeps_store_failures_apart_from_missing_sessions() {
    assert_eq!(
        guard_finish(Err(AppError::NotFound(NotFoundKind::Session))),
        Admission::Reject(AppError::Unauthorized)
    );
    assert_eq!(
        guard_finish(Err(AppError::NotFound(NotFoundKind::User))),
        Admission::Reject(AppError::Unauthorized)
    );
    assert_eq!(
        guard_finish(Err(AppError::InternalServer)),
        Admission::Reject(AppError::InternalServer)
    );
    assert_eq!(
        guard_finish(Err(AppError::AlreadyExists)),
        Admission::Reject(AppError::InternalServer)
    );
}
