use todolistify::db::{Database, StoreFailure};
use todolistify::error::{AppError, NotFoundKind};
use todolistify::hasher::{verify, PasswordCheck};
use todolistify::modules::user::{
    CreateDto, DeleteDto, LoginDto, UpdateInformationDto, UpdatePasswordDto, User,
};
use todolistify::services::user::{
    bad_request_error, closing_allowed, create, create_with_salt, delete, grant,
    information_change, login, merge, new_account, new_account_with_salt, new_password,
    pass_gate, password_stored, update_information, update_password, user_closed, user_found,
    user_written, InformationChange,
};

fn registration(username: &str, email: &str, password: &str) -> CreateDto {
    CreateDto {
        name: "Some Name".to_string(),
        username: username.to_string(),
        email: email.to_string(),
        password: password.to_string(),
        confirmation: password.to_string(),
    }
}

fn credentials(username: &str, password: &str) -> LoginDto {
    LoginDto { username: username.to_string(), password: password.to_string() }
}

fn plain_user() -> User {
    User {
        id: 3,
        name: "N".to_string(),
        username: "u".to_string(),
        email: "e@x.y".to_string(),
        password: "digest".to_string(),
        create_at: None,
        update_at: None,
    }
}

#[test]
fn registration_stores_a_digest_and_not_the_password() {
    let mut db = Database::new();
    let user = create(registration("alice", "alice@example.com", "Abcdef12"), &mut db, 1_000).unwrap();
    assert_eq!(user.id, 1);
    assert_eq!(user.name, "Some Name");
    assert_eq!(user.username, "alice");
    assert_eq!(user.email, "alice@example.com");
    assert_ne!(user.password, "Abcdef12");
    assert!(verify(&"Abcdef12".to_string(), &user.password));
    assert_eq!(db.users.len(), 1);
}

#[test]
fn registration_records_when_it_happened() {
    let mut db = Database::new();
    let user =
        create(registration("alice", "alice@example.com", "Abcdef12"), &mut db, 1_700_000_000).unwrap();
    assert_eq!(user.create_at, Some("2023-11-14T22:13:20Z".to_string()));
    assert_eq!(user.update_at, Some("2023-11-14T22:13:20Z".to_string()));
}

#[test]
fn accounts_get_consecutive_identifiers() {
    let mut db = Database::new();
    let a = create(registration("alice", "alice@example.com", "Abcdef12"), &mut db, 1).unwrap();
    let b = create(registration("bob", "bob@example.com", "Abcdef12"), &mut db, 2).unwrap();
    assert_eq!((a.id, b.id), (1, 2));
}

#[test]
fn second_registration_of_a_username_already_exists() {
    let mut db = Database::new();
    let first = create(registration("alice", "alice@example.com", "Abcdef12"), &mut db, 1_000);
    assert!(first.is_ok());
    let second = create(registration("alice", "other@example.com", "Xyzxyz99"), &mut db, 2_000);
    assert_eq!(second, Err(AppError::AlreadyExists));
    assert_eq!(AppError::AlreadyExists.status_code(), 302);
    assert_eq!(db.users.len(), 1);
}

#[test]
fn second_registration_of_an_email_already_exists() {
    let mut db = Database::new();
    assert!(create(registration("alice", "alice@example.com", "Abcdef12"), &mut db, 1_000).is_ok());
    let second = create(registration("alice2", "alice@example.com", "Abcdef12"), &mut db, 2_000);
    assert_eq!(second, Err(AppError::AlreadyExists));
}

#[test]
fn registration_with_a_refused_salt_writes_nothing() {
    let mut db = Database::new();
    let outcome = create_with_salt(
        registration("alice", "alice@example.com", "Abcdef12"),
        "!".to_string(),
        &mut db,
        1_000,
    );
    assert_eq!(outcome, Err(AppError::InternalServer));
    assert_eq!(db.users.len(), 0);
}

#[test]
fn login_with_the_right_password_answers_the_account() {
    let mut db = Database::new();
    let alice = create(registration("alice", "alice@example.com", "Abcdef12"), &mut db, 1_000).unwrap();
    assert_eq!(login(credentials("alice", "Abcdef12"), &db), Ok(alice));
}

#[test]
fn login_with_wrong_password_and_unknown_username_look_alike() {
    let mut db = Database::new();
    let _ = create(registration("alice", "alice@example.com", "Abcdef12"), &mut db, 1_000).unwrap();
    let wrong_password = login(credentials("alice", "Abcdef13"), &db);
    let unknown_username = login(credentials("mallory", "Abcdef12"), &db);
    assert_eq!(wrong_password, Err(AppError::Unauthorized));
    assert_eq!(unknown_username, Err(AppError::Unauthorized));
    let seen_for_password = wrong_password.unwrap_err().into_response();
    let seen_for_username = unknown_username.unwrap_err().into_response();
    assert_eq!(seen_for_password, seen_for_username);
    assert_eq!(seen_for_password.status, 401);
}

#[test]
fn login_against_a_malformed_digest_is_an_internal_error() {
    let mut db = Database::new();
    db.users
        .insert(
            "Alice".to_string(),
            "alice@example.com".to_string(),
            "alice".to_string(),
            "this is no digest".to_string(),
            "salt".to_string(),
            1_000,
        )
        .unwrap();
    assert_eq!(login(credentials("alice", "Abcdef12"), &db), Err(AppError::InternalServer));
}

#[test]
fn login_to_a_closed_account_is_unauthorized() {
    let mut db = Database::new();
    let alice = create(registration("alice", "alice@example.com", "Abcdef12"), &mut db, 1_000).unwrap();
    let closing = DeleteDto { password: "Abcdef12".to_string() };
    assert_eq!(delete(closing, alice, &mut db, 2_000), Ok(()));
    assert_eq!(login(credentials("alice", "Abcdef12"), &db), Err(AppError::Unauthorized));
    assert_eq!(db.users.len(), 1);
}

#[test]
fn closing_an_account_needs_its_password() {
    let mut db = Database::new();
    let alice = create(registration("alice", "alice@example.com", "Abcdef12"), &mut db, 1_000).unwrap();
    let closing = DeleteDto { password: "Wrong999".to_string() };
    assert_eq!(delete(closing, alice.clone(), &mut db, 2_000), Err(AppError::Unauthorized));
    assert_eq!(login(credentials("alice", "Abcdef12"), &db), Ok(alice));
}

#[test]
fn closing_with_a_malformed_digest_is_an_internal_error() {
    let mut db = Database::new();
    let closing = DeleteDto { password: "Abcdef12".to_string() };
    assert_eq!(delete(closing, plain_user(), &mut db, 2_000), Err(AppError::InternalServer));
}

#[test]
fn update_without_change_is_a_bad_request_and_writes_nothing() {
    let mut db = Database::new();
    let alice = create(registration("alice", "alice@example.com", "Abcdef12"), &mut db, 1_000).unwrap();
    let same = UpdateInformationDto {
        name: Some(alice.name.clone()),
        username: Some(alice.username.clone()),
        email: Some(alice.email.clone()),
    };
    let outcome = update_information(same, alice.clone(), &mut db, 9_000);
    assert_eq!(outcome, Err(AppError::ValidationError("Bad Request!".to_string())));
    assert_eq!(outcome.unwrap_err().status_code(), 400);
    assert_eq!(login(credentials("alice", "Abcdef12"), &db), Ok(alice.clone()));
    let nothing = UpdateInformationDto { name: None, username: None, email: None };
    assert_eq!(update_information(nothing, alice.clone(), &mut db, 9_000), Err(bad_request_error()));
    let partly = UpdateInformationDto { name: None, username: Some("alice".to_string()), email: None };
    assert_eq!(update_information(partly, alice.clone(), &mut db, 9_000), Err(bad_request_error()));
    assert_eq!(login(credentials("alice", "Abcdef12"), &db), Ok(alice));
}

#[test]
fn update_changes_only_the_fields_it_holds() {
    let mut db = Database::new();
    let alice = create(registration("alice", "alice@example.com", "Abcdef12"), &mut db, 0).unwrap();
    let change = UpdateInformationDto {
        name: None,
        username: None,
        email: Some("new@example.com".to_string()),
    };
    let updated = update_information(change, alice.clone(), &mut db, 86_400).unwrap();
    assert_eq!(
        updated,
        User {
            email: "new@example.com".to_string(),
            update_at: Some("1970-01-02T00:00:00Z".to_string()),
            ..alice.clone()
        }
    );
    assert_eq!(updated.create_at, Some("1970-01-01T00:00:00Z".to_string()));
    assert_eq!(login(credentials("alice", "Abcdef12"), &db), Ok(updated));
}

#[test]
fn update_to_a_taken_username_already_exists() {
    let mut db = Database::new();
    let alice = create(registration("alice", "alice@example.com", "Abcdef12"), &mut db, 1).unwrap();
    let _bob = create(registration("bob", "bob@example.com", "Abcdef12"), &mut db, 2).unwrap();
    let change = UpdateInformationDto { name: None, username: Some("bob".to_string()), email: None };
    assert_eq!(update_information(change, alice.clone(), &mut db, 3), Err(AppError::AlreadyExists));
    assert_eq!(login(credentials("alice", "Abcdef12"), &db), Ok(alice));
}

#[test]
fn update_of_a_missing_account_is_an_internal_error() {
    let mut db = Database::new();
    let change = UpdateInformationDto { name: Some("X".to_string()), username: None, email: None };
    assert_eq!(update_information(change, plain_user(), &mut db, 3), Err(AppError::InternalServer));
}

#[test]
fn password_change_needs_the_old_password() {
    let mut db = Database::new();
    let alice = create(registration("alice", "alice@example.com", "Abcdef12"), &mut db, 1).unwrap();
    let change = UpdatePasswordDto {
        old_password: "Wrong999".to_string(),
        password: "Newpass77".to_string(),
        confirmation: "Newpass77".to_string(),
    };
    assert_eq!(update_password(change, alice.clone(), &mut db, 2), Err(AppError::Unauthorized));
    assert_eq!(login(credentials("alice", "Abcdef12"), &db), Ok(alice));
    assert_eq!(login(credentials("alice", "Newpass77"), &db), Err(AppError::Unauthorized));
}

#[test]
fn password_change_replaces_the_digest() {
    let mut db = Database::new();
    let alice = create(registration("alice", "alice@example.com", "Abcdef12"), &mut db, 1).unwrap();
    let change = UpdatePasswordDto {
        old_password: "Abcdef12".to_string(),
        password: "Newpass77".to_string(),
        confirmation: "Newpass77".to_string(),
    };
    assert_eq!(update_password(change, alice.clone(), &mut db, 2), Ok(()));
    assert_eq!(login(credentials("alice", "Abcdef12"), &db), Err(AppError::Unauthorized));
    let after = login(credentials("alice", "Newpass77"), &db).unwrap();
    assert_eq!(after.id, alice.id);
    assert_ne!(after.password, alice.password);
}

#[test]
fn password_change_against_a_malformed_digest_is_an_internal_error() {
    let mut db = Database::new();
    let change = UpdatePasswordDto {
        old_password: "Abcdef12".to_string(),
        password: "Newpass77".to_string(),
        confirmation: "Newpass77".to_string(),
    };
    assert_eq!(update_password(change, plain_user(), &mut db, 2), Err(AppError::InternalServer));
}

#[test]
fn store_answer_decides_written_account() {
    let user = plain_user();
    assert_eq!(user_written(Ok(user.clone())), Ok(user));
    assert_eq!(
        user_written(Err(StoreFailure::Database(Some("23505".to_string())))),
        Err(AppError::AlreadyExists)
    );
    assert_eq!(
        user_written(Err(StoreFailure::Database(Some("23503".to_string())))),
        Err(AppError::InternalServer)
    );
    assert_eq!(user_written(Err(StoreFailure::Database(None))), Err(AppError::InternalServer));
    assert_eq!(user_written(Err(StoreFailure::RowNotFound)), Err(AppError::InternalServer));
    assert_eq!(user_written(Err(StoreFailure::Other)), Err(AppError::InternalServer));
}

#[test]
fn check_decides_login() {
    let user = plain_user();
    assert_eq!(grant(user.clone(), PasswordCheck::Match), Ok(user.clone()));
    assert_eq!(grant(user.clone(), PasswordCheck::Mismatch), Err(AppError::Unauthorized));
    assert_eq!(grant(user, PasswordCheck::Malformed), Err(AppError::InternalServer));
}

#[test]
fn store_answer_decides_login() {
    let password = "Abcdef12".to_string();
    assert_eq!(user_found(Err(StoreFailure::RowNotFound), &password), Err(AppError::Unauthorized));
    assert_eq!(user_found(Err(StoreFailure::Other), &password), Err(AppError::InternalServer));
    assert_eq!(user_found(Ok(plain_user()), &password), Err(AppError::InternalServer));
}

#[test]
fn check_decides_gate() {
    assert_eq!(pass_gate(PasswordCheck::Match), None);
    assert_eq!(pass_gate(PasswordCheck::Mismatch), Some(AppError::Unauthorized));
    assert_eq!(pass_gate(PasswordCheck::Malformed), Some(AppError::InternalServer));
}

#[test]
fn store_answer_decides_password_change_and_closing() {
    assert_eq!(password_stored(Ok(1)), Ok(()));
    assert_eq!(password_stored(Ok(0)), Err(AppError::NotFound(NotFoundKind::User)));
    assert_eq!(password_stored(Err(StoreFailure::Other)), Err(AppError::InternalServer));
    assert_eq!(user_closed(Ok(1)), Ok(()));
    assert_eq!(user_closed(Ok(0)), Ok(()));
    assert_eq!(user_closed(Err(StoreFailure::Other)), Err(AppError::InternalServer));
}

#[test]
fn merge_prefers_the_new_value() {
    assert_eq!(merge(Some("new".to_string()), &"old".to_string()), "new");
    assert_eq!(merge(None, &"old".to_string()), "old");
    assert_eq!(merge(Some(String::new()), &"old".to_string()), "");
}

#[test]
fn password_change_of_a_missing_account_is_not_found() {
    let mut elsewhere = Database::new();
    let alice =
        create(registration("alice", "alice@example.com", "Abcdef12"), &mut elsewhere, 1).unwrap();
    let mut db = Database::new();
    let change = UpdatePasswordDto {
        old_password: "Abcdef12".to_string(),
        password: "Newpass77".to_string(),
        confirmation: "Newpass77".to_string(),
    };
    assert_eq!(
        update_password(change, alice, &mut db, 2),
        Err(AppError::NotFound(NotFoundKind::User))
    );
    assert_eq!(AppError::NotFound(NotFoundKind::User).status_code(), 404);
}

#[test]
fn closing_a_missing_account_succeeds_and_writes_nothing() {
    let mut elsewhere = Database::new();
    let alice =
        create(registration("alice", "alice@example.com", "Abcdef12"), &mut elsewhere, 1).unwrap();
    let mut db = Database::new();
    let closing = DeleteDto { password: "Abcdef12".to_string() };
    assert_eq!(delete(closing, alice, &mut db, 2), Ok(()));
    assert_eq!(db.users.len(), 0);
}

#[test]
fn prepared_account_holds_the_digest_in_place_of_the_password() {
    let account = new_account(registration("alice", "alice@example.com", "Abcdef12")).unwrap();
    assert_eq!(account.name, "Some Name");
    assert_eq!(account.email, "alice@example.com");
    assert_eq!(account.username, "alice");
    assert!(verify(&"Abcdef12".to_string(), &account.password));
    assert!(account.password.contains(&account.salt));
    let refused = new_account_with_salt(
        registration("alice", "alice@example.com", "Abcdef12"),
        "?".to_string(),
    );
    assert_eq!(refused, Err(AppError::InternalServer));
}

#[test]
fn prepared_password_needs_the_old_one() {
    let mut db = Database::new();
    let alice = create(registration("alice", "alice@example.com", "Abcdef12"), &mut db, 1).unwrap();
    let wrong = UpdatePasswordDto {
        old_password: "Wrong999".to_string(),
        password: "Newpass77".to_string(),
        confirmation: "Newpass77".to_string(),
    };
    assert_eq!(new_password(wrong, &alice), Err(AppError::Unauthorized));
    let right = UpdatePasswordDto {
        old_password: "Abcdef12".to_string(),
        password: "Newpass77".to_string(),
        confirmation: "Newpass77".to_string(),
    };
    let new = new_password(right, &alice).unwrap();
    assert!(verify(&"Newpass77".to_string(), &new.password));
    assert!(new.password.contains(&new.salt));
    let again = UpdatePasswordDto {
        old_password: "Abcdef12".to_string(),
        password: "Newpass77".to_string(),
        confirmation: "Newpass77".to_string(),
    };
    assert_eq!(new_password(again, &plain_user()), Err(AppError::InternalServer));
}

#[test]
fn closing_is_allowed_with_the_password_only() {
    let mut db = Database::new();
    let alice = create(registration("alice", "alice@example.com", "Abcdef12"), &mut db, 1).unwrap();
    assert_eq!(closing_allowed(&DeleteDto { password: "Abcdef12".to_string() }, &alice), Ok(()));
    assert_eq!(
        closing_allowed(&DeleteDto { password: "Wrong999".to_string() }, &alice),
        Err(AppError::Unauthorized)
    );
    assert_eq!(
        closing_allowed(&DeleteDto { password: "Abcdef12".to_string() }, &plain_user()),
        Err(AppError::InternalServer)
    );
}

#[test]
fn information_change_merges_over_current_values() {
    let user = plain_user();
    let change = UpdateInformationDto {
        name: Some("New".to_string()),
        username: None,
        email: None,
    };
    assert_eq!(
        information_change(change, &user),
        Ok(InformationChange {
            email: "e@x.y".to_string(),
            name: "New".to_string(),
            username: "u".to_string(),
        })
    );
    let same = UpdateInformationDto { name: Some("N".to_string()), username: None, email: None };
    assert_eq!(information_change(same, &user), Err(bad_request_error()));
}
