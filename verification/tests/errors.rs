use todolistify::error::{AppError, NotFoundKind};
use todolistify::reply::{Body, Reply};

fn all_errors() -> Vec<(AppError, u16, &'static str)> {
    vec![
        (AppError::ValidationError("name: too short".to_string()), 400, "name: too short"),
        (AppError::AlreadyExists, 302, "User already registered!"),
        (AppError::NotFound(NotFoundKind::User), 404, "User NOT found!"),
        (AppError::NotFound(NotFoundKind::Session), 404, "Session NOT found!"),
        (AppError::NotFound(NotFoundKind::Data), 404, "Data NOT found!"),
        (AppError::Unauthorized, 401, "Unauthorized!"),
        (AppError::CannotIssueSession, 500, "Can NOT create the session!"),
        (AppError::InternalServer, 500, "Internal Server Error!"),
    ]
}

#[test]
fn every_error_has_its_status() {
    for (error, status, _) in all_errors() {
        assert_eq!(error.status_code(), status);
    }
}

#[test]
fn every_error_has_its_message() {
    for (error, _, message) in all_errors() {
        assert_eq!(error.message(), message);
    }
}

#[test]
fn error_reply_repeats_status_in_body_and_sets_no_cookie() {
    for (error, status, message) in all_errors() {
        let reply = error.into_response();
        assert_eq!(
            reply,
            Reply {
                status,
                set_cookie: None,
                body: Body::Error { error: message.to_string(), status },
            }
        );
    }
}

#[test]
fn validation_detail_is_the_message() {
    let error = AppError::ValidationError(String::new());
    assert_eq!(error.message(), "");
    assert_eq!(error.status_code(), 400);
}
