use todolistify::clock::SESSION_TTL_SECS;
use todolistify::db::{Database, StoreFailure};
use todolistify::error::{AppError, NotFoundKind};
use todolistify::modules::user::User;
use todolistify::services::auth::{
    build_cookie, build_deleted_cookie, create_session, delete_session, get_user_by_session,
    session_deleted, session_resolved, session_written,
};

fn add_user(db: &mut Database, username: &str) -> User {
    db.users
        .insert(
            username.to_uppercase(),
            format!("{}@example.com", username),
            username.to_string(),
            "digest".to_string(),
            "salt".to_string(),
            1_000,
        )
        .unwrap()
}

#[test]
fn session_cookie_carries_token_and_attributes() {
    let text = build_cookie("abc".to_string());
    assert_eq!(text, "session=abc; HttpOnly; Secure; Path=/; Max-Age=604800");
}

#[test]
fn session_cookie_does_not_encode_its_value() {
    let text = build_cookie("a b;c".to_string());
    assert_eq!(text, "session=a b;c; HttpOnly; Secure; Path=/; Max-Age=604800");
}

#[test]
fn deleted_cookie_has_no_value_and_no_age() {
    assert_eq!(build_deleted_cookie(), "session=; HttpOnly; Path=/; Max-Age=0");
}

#[test]
fn session_lifetime_is_seven_days() {
    assert_eq!(SESSION_TTL_SECS, 7 * 24 * 60 * 60);
}

#[test]
fn token_is_a_hyphenated_version_four_uuid() {
    let mut db = Database::new();
    let user = add_user(&mut db, "alice");
    let token = create_session(&user.username, user.id, &mut db, 1_000).unwrap();
    assert_eq!(token.len(), 36);
    for (i, c) in token.chars().enumerate() {
        if i == 8 || i == 13 || i == 18 || i == 23 {
            assert_eq!(c, '-');
        } else {
            assert!(c.is_ascii_digit() || ('a'..='f').contains(&c));
        }
    }
    assert_eq!(token.chars().nth(14), Some('4'));
    assert!("89ab".contains(token.chars().nth(19).unwrap()));
}

#[test]
fn issued_session_resolves_to_its_user() {
    let mut db = Database::new();
    let _bob = add_user(&mut db, "bob");
    let alice = add_user(&mut db, "alice");
    let token = create_session(&alice.username, alice.id, &mut db, 1_000).unwrap();
    assert_eq!(get_user_by_session(token, &db, 1_001), Ok(alice));
}

#[test]
fn unknown_token_does_not_resolve() {
    let mut db = Database::new();
    let alice = add_user(&mut db, "alice");
    let _token = create_session(&alice.username, alice.id, &mut db, 1_000).unwrap();
    assert_eq!(
        get_user_by_session("nobody-has-this".to_string(), &db, 1_001),
        Err(AppError::NotFound(NotFoundKind::Session))
    );
}

#[test]
fn new_session_overwrites_the_prior_token() {
    let mut db = Database::new();
    let alice = add_user(&mut db, "alice");
    let first = create_session(&alice.username, alice.id, &mut db, 1_000).unwrap();
    let second = create_session(&alice.username, alice.id, &mut db, 2_000).unwrap();
    assert_ne!(first, second);
    assert_eq!(db.sessions.len(), 1);
    assert_eq!(
        get_user_by_session(first, &db, 2_001),
        Err(AppError::NotFound(NotFoundKind::Session))
    );
    assert_eq!(get_user_by_session(second, &db, 2_001), Ok(alice));
}

#[test]
fn new_session_resets_the_expiry() {
    let mut db = Database::new();
    let alice = add_user(&mut db, "alice");
    let _first = create_session(&alice.username, alice.id, &mut db, 1_000).unwrap();
    let second = create_session(&alice.username, alice.id, &mut db, 2_000).unwrap();
    assert_eq!(get_user_by_session(second.clone(), &db, 1_000 + SESSION_TTL_SECS), Ok(alice));
    assert!(get_user_by_session(second, &db, 2_000 + SESSION_TTL_SECS).is_err());
}

#[test]
fn expired_session_does_not_resolve_though_its_row_remains() {
    let mut db = Database::new();
    let alice = add_user(&mut db, "alice");
    let token = create_session(&alice.username, alice.id, &mut db, 1_000).unwrap();
    let last_second = 1_000 + SESSION_TTL_SECS - 1;
    assert_eq!(get_user_by_session(token.clone(), &db, last_second), Ok(alice));
    assert_eq!(
        get_user_by_session(token.clone(), &db, last_second + 1),
        Err(AppError::NotFound(NotFoundKind::Session))
    );
    assert_eq!(
        get_user_by_session(token, &db, last_second + 1_000_000),
        Err(AppError::NotFound(NotFoundKind::Session))
    );
    assert_eq!(db.sessions.len(), 1);
}

#[test]
fn sessions_of_two_users_do_not_interfere() {
    let mut db = Database::new();
    let alice = add_user(&mut db, "alice");
    let bob = add_user(&mut db, "bob");
    let for_alice = create_session(&alice.username, alice.id, &mut db, 1_000).unwrap();
    let for_bob = create_session(&bob.username, bob.id, &mut db, 1_000).unwrap();
    assert_eq!(db.sessions.len(), 2);
    assert_eq!(delete_session(alice.id, &mut db), Ok(()));
    assert_eq!(db.sessions.len(), 1);
    assert!(get_user_by_session(for_alice, &db, 1_001).is_err());
    assert_eq!(get_user_by_session(for_bob, &db, 1_001), Ok(bob));
}

#[test]
fn deleting_a_session_that_is_not_there_is_not_found() {
    let mut db = Database::new();
    let alice = add_user(&mut db, "alice");
    assert_eq!(delete_session(alice.id, &mut db), Err(AppError::NotFound(NotFoundKind::Session)));
    let _token = create_session(&alice.username, alice.id, &mut db, 1_000).unwrap();
    assert_eq!(delete_session(alice.id, &mut db), Ok(()));
    assert_eq!(delete_session(alice.id, &mut db), Err(AppError::NotFound(NotFoundKind::Session)));
}

#[test]
fn session_of_closed_account_does_not_resolve() {
    let mut db = Database::new();
    let alice = add_user(&mut db, "alice");
    let token = create_session(&alice.username, alice.id, &mut db, 1_000).unwrap();
    assert_eq!(db.users.deactivate(alice.id, 1_500), Ok(1));
    assert_eq!(
        get_user_by_session(token, &db, 1_501),
        Err(AppError::NotFound(NotFoundKind::Session))
    );
}

#[test]
fn write_answer_decides_issue() {
    let token = "t".to_string();
    assert_eq!(session_written(token.clone(), Ok(1)), Ok(token.clone()));
    assert_eq!(session_written(token.clone(), Ok(2)), Ok(token.clone()));
    assert_eq!(session_written(token.clone(), Ok(0)), Err(AppError::CannotIssueSession));
    assert_eq!(
        session_written(token.clone(), Err(StoreFailure::Other)),
        Err(AppError::InternalServer)
    );
    assert_eq!(
        session_written(token, Err(StoreFailure::RowNotFound)),
        Err(AppError::InternalServer)
    );
}

#[test]
fn query_answer_decides_resolution() {
    let user = User {
        id: 7,
        name: "A".to_string(),
        username: "a".to_string(),
        email: "a@b.c".to_string(),
        password: "digest".to_string(),
        create_at: None,
        update_at: None,
    };
    assert_eq!(session_resolved(Ok(user.clone())), Ok(user));
    assert_eq!(
        session_resolved(Err(StoreFailure::RowNotFound)),
        Err(AppError::NotFound(NotFoundKind::Session))
    );
    assert_eq!(session_resolved(Err(StoreFailure::Other)), Err(AppError::InternalServer));
    assert_eq!(
        session_resolved(Err(StoreFailure::Database(Some("57014".to_string())))),
        Err(AppError::InternalServer)
    );
}

#[test]
fn delete_answer_decides_revocation() {
    assert_eq!(session_deleted(Ok(1)), Ok(()));
    assert_eq!(session_deleted(Ok(0)), Err(AppError::NotFound(NotFoundKind::Session)));
    assert_eq!(session_deleted(Err(StoreFailure::Other)), Err(AppError::InternalServer));
}

#[test]
fn session_whose_expiry_cannot_be_held_is_not_issued() {
    let mut db = Database::new();
    let alice = add_user(&mut db, "alice");
    let last_moment = u64::MAX - SESSION_TTL_SECS;
    assert_eq!(
        create_session(&alice.username, alice.id, &mut db, last_moment + 1),
        Err(AppError::InternalServer)
    );
    assert_eq!(db.sessions.len(), 0);
    assert_eq!(
        db.sessions.upsert(alice.id, "t".to_string(), u64::MAX),
        Err(StoreFailure::Database(Some("22008".to_string())))
    );
    assert_eq!(db.sessions.len(), 0);
    let token = create_session(&alice.username, alice.id, &mut db, last_moment).unwrap();
    assert_eq!(get_user_by_session(token, &db, u64::MAX - 1), Ok(alice));
}
