use todolistify::db::Database;
use todolistify::error::{AppError, NotFoundKind};
use todolistify::handlers::user::{
    next_step, reply_with_session, screen, screen_information, Step,
};
use todolistify::handlers::{task, user};
use todolistify::middlewares::auth::{auth_guard, Admission};
use todolistify::modules::task::{CreateDto as TaskCreateDto, Task, UpdateDto};
use todolistify::modules::user::{
    CreateDto, LoginDto, PublicUser, UpdateInformationDto, UpdatePasswordDto, User,
};
use todolistify::reply::{Body, Reply};

fn registration(username: &str, password: &str) -> CreateDto {
    CreateDto {
        name: "Some Name".to_string(),
        username: username.to_string(),
        email: format!("{}@example.com", username),
        password: password.to_string(),
        confirmation: password.to_string(),
    }
}

fn credentials(username: &str, password: &str) -> LoginDto {
    LoginDto { username: username.to_string(), password: password.to_string() }
}

fn token_of(reply: &Reply) -> String {
    let cookie = reply.set_cookie.clone().unwrap();
    let rest = cookie.strip_prefix("session=").unwrap();
    let token = rest.strip_suffix("; HttpOnly; Secure; Path=/; Max-Age=604800").unwrap();
    token.to_string()
}

fn admitted(cookie: Option<String>, db: &Database, now: u64) -> User {
    match auth_guard(cookie, db, now) {
        Admission::Proceed(user) => user,
        Admission::Reject(e) => panic!("rejected with {:?}", e),
    }
}

#[test]
fn register_login_work_logout() {
    let mut db = Database::new();

    let registered = user::register(registration("alice", "Abcdef12"), &mut db, 1_000);
    assert_eq!(registered.status, 201);
    assert_eq!(
        registered.body,
        Body::User(PublicUser {
            id: 1,
            name: "Some Name".to_string(),
            username: "alice".to_string(),
            email: "alice@example.com".to_string(),
            create_at: Some("1970-01-01T00:16:40Z".to_string()),
            update_at: Some("1970-01-01T00:16:40Z".to_string()),
        })
    );
    assert!(registered.set_cookie.is_some());

    let logged_in = user::login(credentials("alice", "Abcdef12"), &mut db, 2_000);
    assert_eq!(logged_in.status, 200);
    assert_eq!(logged_in.body, registered.body);
    let token = token_of(&logged_in);
    assert_ne!(token, token_of(&registered));

    let alice = admitted(Some(token.clone()), &db, 2_001);
    assert_eq!(alice.id, 1);
    let request = TaskCreateDto {
        title: "write".to_string(),
        body: None,
        state: None,
        priority: None,
    };
    let created = task::create(&alice, request, &mut db, 2_001);
    assert_eq!(created.status, 201);
    assert_eq!(created.set_cookie, None);
    match &created.body {
        Body::Task(task) => {
            assert_eq!(task.user_id, alice.id);
            assert_eq!(task.title, "write");
        }
        other => panic!("no task in {:?}", other),
    }

    let logged_out = user::logout(alice, &mut db);
    assert_eq!(
        logged_out,
        Reply {
            status: 200,
            set_cookie: Some("session=; HttpOnly; Path=/; Max-Age=0".to_string()),
            body: Body::Empty,
        }
    );

    let again = auth_guard(Some(token), &db, 2_002);
    assert_eq!(again, Admission::Reject(AppError::Unauthorized));
    assert_eq!(AppError::Unauthorized.into_response().status, 401);
}

#[test]
fn rejected_registration_says_why_and_writes_nothing() {
    let mut db = Database::new();
    let reply = user::register(registration("Alice", "Abcdef12"), &mut db, 1_000);
    assert_eq!(
        reply,
        Reply {
            status: 400,
            set_cookie: None,
            body: Body::Error {
                error: "username: Validation error: User name not matches!".to_string(),
                status: 400,
            },
        }
    );
    assert_eq!(db.users.len(), 0);
    assert_eq!(db.sessions.len(), 0);
}

#[test]
fn second_registration_is_answered_with_found() {
    let mut db = Database::new();
    assert_eq!(user::register(registration("alice", "Abcdef12"), &mut db, 1_000).status, 201);
    let second = user::register(registration("alice", "Abcdef12"), &mut db, 2_000);
    assert_eq!(second, AppError::AlreadyExists.into_response());
    assert_eq!(second.status, 302);
}

#[test]
fn failed_logins_get_the_same_reply_and_no_session() {
    let mut db = Database::new();
    assert_eq!(user::register(registration("alice", "Abcdef12"), &mut db, 1_000).status, 201);
    let sessions = db.sessions.len();
    let wrong_password = user::login(credentials("alice", "Abcdef13"), &mut db, 2_000);
    let unknown_username = user::login(credentials("mallory", "Abcdef12"), &mut db, 2_000);
    assert_eq!(wrong_password, unknown_username);
    assert_eq!(wrong_password.status, 401);
    assert_eq!(wrong_password.set_cookie, None);
    assert_eq!(db.sessions.len(), sessions);
}

#[test]
fn rejected_login_is_a_bad_request() {
    let mut db = Database::new();
    let reply = user::login(credentials("alice", "weak"), &mut db, 2_000);
    assert_eq!(reply.status, 400);
    assert_eq!(
        reply.body,
        Body::Error {
            error: "password: Validation error: min=8 && max=512".to_string(),
            status: 400
        }
    );
}

#[test]
fn refresh_replaces_the_session() {
    let mut db = Database::new();
    let registered = user::register(registration("alice", "Abcdef12"), &mut db, 1_000);
    let old_token = token_of(&registered);
    let alice = admitted(Some(old_token.clone()), &db, 1_500);
    let refreshed = user::refresh(alice.clone(), &mut db, 2_000);
    assert_eq!(refreshed.status, 200);
    assert_eq!(refreshed.body, Body::User(alice.public()));
    let new_token = token_of(&refreshed);
    assert_eq!(auth_guard(Some(old_token), &db, 2_001), Admission::Reject(AppError::Unauthorized));
    assert_eq!(admitted(Some(new_token), &db, 2_001), alice);
}

#[test]
fn logout_without_a_session_is_not_found() {
    let mut db = Database::new();
    let registered = user::register(registration("alice", "Abcdef12"), &mut db, 1_000);
    let alice = admitted(Some(token_of(&registered)), &db, 1_500);
    assert_eq!(user::logout(alice.clone(), &mut db).status, 200);
    assert_eq!(
        user::logout(alice, &mut db),
        AppError::NotFound(NotFoundKind::Session).into_response()
    );
}

#[test]
fn information_update_answers_created_with_a_new_session() {
    let mut db = Database::new();
    let registered = user::register(registration("alice", "Abcdef12"), &mut db, 1_000);
    let alice = admitted(Some(token_of(&registered)), &db, 1_500);
    let change = UpdateInformationDto {
        name: Some("Alice Liddell".to_string()),
        username: None,
        email: None,
    };
    let reply = user::update_information(alice.clone(), change, &mut db, 2_000);
    assert_eq!(reply.status, 201);
    match &reply.body {
        Body::User(shown) => {
            assert_eq!(shown.name, "Alice Liddell");
            assert_eq!(shown.username, "alice");
        }
        other => panic!("no account in {:?}", other),
    }
    let after = admitted(Some(token_of(&reply)), &db, 2_001);
    assert_eq!(after.name, "Alice Liddell");
}

#[test]
fn information_update_without_fields_or_change_is_a_bad_request() {
    let mut db = Database::new();
    let registered = user::register(registration("alice", "Abcdef12"), &mut db, 1_000);
    let token = token_of(&registered);
    let alice = admitted(Some(token.clone()), &db, 1_500);
    let bad_request = AppError::ValidationError("Bad Request!".to_string()).into_response();
    let nothing = UpdateInformationDto { name: None, username: None, email: None };
    assert_eq!(user::update_information(alice.clone(), nothing, &mut db, 2_000), bad_request);
    let same = UpdateInformationDto {
        name: None,
        username: Some("alice".to_string()),
        email: None,
    };
    assert_eq!(user::update_information(alice.clone(), same, &mut db, 2_000), bad_request);
    assert_eq!(bad_request.status, 400);
    assert_eq!(admitted(Some(token), &db, 2_001), alice);
}

#[test]
fn password_update_answers_ok_or_unauthorized() {
    let mut db = Database::new();
    let registered = user::register(registration("alice", "Abcdef12"), &mut db, 1_000);
    let alice = admitted(Some(token_of(&registered)), &db, 1_500);
    let wrong = UpdatePasswordDto {
        old_password: "Wrong999".to_string(),
        password: "Newpass77".to_string(),
        confirmation: "Newpass77".to_string(),
    };
    assert_eq!(
        user::update_password(alice.clone(), wrong, &mut db, 2_000),
        AppError::Unauthorized.into_response()
    );
    let right = UpdatePasswordDto {
        old_password: "Abcdef12".to_string(),
        password: "Newpass77".to_string(),
        confirmation: "Newpass77".to_string(),
    };
    assert_eq!(
        user::update_password(alice, right, &mut db, 2_000),
        Reply { status: 200, set_cookie: None, body: Body::Empty }
    );
    assert_eq!(user::login(credentials("alice", "Newpass77"), &mut db, 3_000).status, 200);
}

#[test]
fn rejected_password_update_writes_nothing() {
    let mut db = Database::new();
    let registered = user::register(registration("alice", "Abcdef12"), &mut db, 1_000);
    let alice = admitted(Some(token_of(&registered)), &db, 1_500);
    let mismatched = UpdatePasswordDto {
        old_password: "Abcdef12".to_string(),
        password: "Newpass77".to_string(),
        confirmation: "Newpass78".to_string(),
    };
    assert_eq!(
        user::update_password(alice.clone(), mismatched, &mut db, 2_000),
        AppError::ValidationError("confirmation: Invalid password confirmation!".to_string())
            .into_response()
    );
    let weak = UpdatePasswordDto {
        old_password: "Abcdef12".to_string(),
        password: "weakweak".to_string(),
        confirmation: "weakweak".to_string(),
    };
    assert_eq!(user::update_password(alice, weak, &mut db, 2_000).status, 400);
    assert_eq!(user::login(credentials("alice", "Abcdef12"), &mut db, 3_000).status, 200);
}

#[test]
fn delete_request_is_accepted() {
    assert_eq!(user::delete(), Reply { status: 200, set_cookie: None, body: Body::Empty });
}

#[test]
fn task_requests_answer_with_tasks() {
    let mut db = Database::new();
    let registered = user::register(registration("alice", "Abcdef12"), &mut db, 1_000);
    let alice = admitted(Some(token_of(&registered)), &db, 1_500);
    let request = TaskCreateDto {
        title: "write".to_string(),
        body: Some("a letter".to_string()),
        state: None,
        priority: Some("HIGH".to_string()),
    };
    let created = task::create(&alice, request, &mut db, 0);
    let written = Task {
        id: 1,
        user_id: alice.id,
        title: "write".to_string(),
        body: Some("a letter".to_string()),
        state: "TO_DO".to_string(),
        priority: "HIGH".to_string(),
        created_at: Some("1970-01-01T00:00:00Z".to_string()),
        updated_at: Some("1970-01-01T00:00:00Z".to_string()),
    };
    assert_eq!(
        created,
        Reply { status: 201, set_cookie: None, body: Body::Task(written.clone()) }
    );
    assert_eq!(
        task::get_all(&alice, &db),
        Reply { status: 200, set_cookie: None, body: Body::Tasks(vec![written.clone()]) }
    );
    let change = UpdateDto {
        title: None,
        body: None,
        state: Some("DONE".to_string()),
        priority: None,
    };
    let changed = Task {
        state: "DONE".to_string(),
        updated_at: Some("1970-01-01T00:00:01Z".to_string()),
        ..written
    };
    assert_eq!(
        task::update(1, &alice, change, &mut db, 1),
        Reply { status: 200, set_cookie: None, body: Body::Task(changed) }
    );
    let invalid = UpdateDto {
        title: None,
        body: None,
        state: Some("LATER".to_string()),
        priority: None,
    };
    assert_eq!(task::update(1, &alice, invalid, &mut db, 2).status, 400);
    let empty = UpdateDto { title: None, body: None, state: None, priority: None };
    assert_eq!(
        task::update(1, &alice, empty, &mut db, 2),
        AppError::ValidationError("Bad Request!".to_string()).into_response()
    );
    assert_eq!(
        task::delete(2, &alice, &mut db),
        AppError::NotFound(NotFoundKind::Data).into_response()
    );
    assert_eq!(
        task::delete(1, &alice, &mut db),
        Reply { status: 200, set_cookie: None, body: Body::Empty }
    );
    assert_eq!(
        task::get_all(&alice, &db),
        Reply { status: 200, set_cookie: None, body: Body::Tasks(vec![]) }
    );
}

#[test]
fn rejected_task_is_not_created() {
    let mut db = Database::new();
    let registered = user::register(registration("alice", "Abcdef12"), &mut db, 1_000);
    let alice = admitted(Some(token_of(&registered)), &db, 1_500);
    let request = TaskCreateDto {
        title: String::new(),
        body: None,
        state: None,
        priority: None,
    };
    let reply = task::create(&alice, request, &mut db, 2_000);
    assert_eq!(
        reply.body,
        Body::Error { error: "title: min=1, max=255".to_string(), status: 400 }
    );
    assert_eq!(db.tasks.len(), 0);
}

#[test]
fn shown_account_has_no_digest() {
    let user = User {
        id: 9,
        name: "N".to_string(),
        username: "u".to_string(),
        email: "e@x.y".to_string(),
        password: "digest".to_string(),
        create_at: Some("c".to_string()),
        update_at: None,
    };
    assert_eq!(
        user.public(),
        PublicUser {
            id: 9,
            name: "N".to_string(),
            username: "u".to_string(),
            email: "e@x.y".to_string(),
            create_at: Some("c".to_string()),
            update_at: None,
        }
    );
}

#[test]
fn step_after_a_service_is_a_session_or_the_error() {
    let user = User {
        id: 9,
        name: "N".to_string(),
        username: "u".to_string(),
        email: "e@x.y".to_string(),
        password: "digest".to_string(),
        create_at: None,
        update_at: None,
    };
    assert_eq!(next_step(Ok(user.clone())), Step::IssueSession(user));
    assert_eq!(
        next_step(Err(AppError::AlreadyExists)),
        Step::Answer(AppError::AlreadyExists.into_response())
    );
}

#[test]
fn reply_with_session_carries_cookie_or_error() {
    let user = User {
        id: 9,
        name: "N".to_string(),
        username: "u".to_string(),
        email: "e@x.y".to_string(),
        password: "digest".to_string(),
        create_at: None,
        update_at: None,
    };
    assert_eq!(
        reply_with_session(201, &user, Ok("tok".to_string())),
        Reply {
            status: 201,
            set_cookie: Some(
                "session=tok; HttpOnly; Secure; Path=/; Max-Age=604800".to_string()
            ),
            body: Body::User(user.public()),
        }
    );
    assert_eq!(
        reply_with_session(201, &user, Err(AppError::CannotIssueSession)),
        AppError::CannotIssueSession.into_response()
    );
}

#[test]
fn screening_hands_back_the_request_or_says_why_not() {
    let good = credentials("alice", "Abcdef12");
    assert_eq!(screen(credentials("alice", "Abcdef12")), Ok(good));
    let reply = screen(credentials("alice", "weak")).unwrap_err();
    assert_eq!(
        reply,
        AppError::ValidationError("password: Validation error: min=8 && max=512".to_string())
            .into_response()
    );
}

#[test]
fn screening_an_update_without_fields_is_a_bad_request() {
    let nothing = UpdateInformationDto { name: None, username: None, email: None };
    assert_eq!(
        screen_information(nothing),
        Err(AppError::ValidationError("Bad Request!".to_string()).into_response())
    );
    let invalid = UpdateInformationDto { name: Some("A".to_string()), username: None, email: None };
    assert_eq!(
        screen_information(invalid),
        Err(AppError::ValidationError("name: min=2 && max=255".to_string()).into_response())
    );
    let valid = UpdateInformationDto { name: Some("Al".to_string()), username: None, email: None };
    assert_eq!(
        screen_information(valid),
        Ok(UpdateInformationDto { name: Some("Al".to_string()), username: None, email: None })
    );
}
