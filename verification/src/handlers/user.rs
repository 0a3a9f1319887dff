//! The requests about accounts and sessions.
//!
//! Registration and login need no session. Every other request here is made
//! by a user whom the guard has admitted, the refresh and the logout among
//! them, and is handed the identity that the guard resolved.

use vstd::prelude::*;
use crate::db::{Database, DatabaseView};
use crate::error::{result_view, unit_result_view, AppError, AppErrorView};
use crate::hasher::is_salt_for;
use crate::modules::user::{
    CreateDto, CreateDtoView, LoginDto, LoginDtoView, UpdateInformationDto,
    UpdateInformationDtoView, UpdatePasswordDto, UpdatePasswordDtoView, User, UserView,
};
use crate::reply::{bare, bare_reply, Body, BodyView, Reply, ReplyView, STATUS_CREATED, STATUS_OK};
use crate::services;
use crate::services::auth::{
    build_cookie, build_deleted_cookie, deleted_cookie, is_token_text, session_cookie,
    text_result_view,
};
use crate::services::user::{bad_request, bad_request_error, is_salt_for_change};
use crate::validation::{described, validated, FieldErrorView, Validate, ValidationErrors};

verus! {

/// The reply to a request whose fields were rejected.
pub open spec fn rejected(errors: Seq<FieldErrorView>) -> ReplyView {
    AppErrorView::ValidationError(described(errors)).reply()
}

/// The reply to a request that ends with the issue of a session to `user`:
/// the account, without its digest, and the cookie that carries the token;
/// or the error for which no session was issued.
pub open spec fn session_reply(
    status: u16,
    user: UserView,
    session: Result<Seq<char>, AppErrorView>,
) -> ReplyView {
    match session {
        Ok(token) => ReplyView {
            status,
            set_cookie: Some(session_cookie(token)),
            body: BodyView::User(user.public()),
        },
        Err(e) => e.reply(),
    }
}

/// The reply to a logout: the cookie that drops the session, or the error
/// for which no session was revoked.
pub open spec fn logout_reply(revoked: Result<(), AppErrorView>) -> ReplyView {
    match revoked {
        Ok(()) => ReplyView {
            status: STATUS_OK,
            set_cookie: Some(deleted_cookie()),
            body: BodyView::Empty,
        },
        Err(e) => e.reply(),
    }
}

/// The reply to a request that answers with nothing but success or an error.
pub open spec fn plain_reply(outcome: Result<(), AppErrorView>) -> ReplyView {
    match outcome {
        Ok(()) => bare(STATUS_OK),
        Err(e) => e.reply(),
    }
}

/// What a handler does once a service has answered with an account or an
/// error.
#[derive(Debug, PartialEq, Eq)]
pub enum Step {
    /// Answer the request with this reply.
    Answer(Reply),
    /// Issue a session to this user, and answer with it.
    IssueSession(User),
}

/// A [`Step`] over sequences of characters.
pub enum StepView {
    Answer(ReplyView),
    IssueSession(UserView),
}

impl View for Step {
    type V = StepView;

    open spec fn view(&self) -> StepView {
        match *self {
            Step::Answer(reply) => StepView::Answer(reply@),
            Step::IssueSession(user) => StepView::IssueSession(user@),
        }
    }
}

/// The step after a service has answered: an error is the reply, and an
/// account is issued a session.
pub open spec fn step_after(outcome: Result<UserView, AppErrorView>) -> StepView {
    match outcome {
        Ok(user) => StepView::IssueSession(user),
        Err(e) => StepView::Answer(e.reply()),
    }
}

/// Takes the step after a service has answered.
pub fn next_step(outcome: Result<User, AppError>) -> (step: Step)
    ensures
        step@ == step_after(result_view(outcome)),
{
    match outcome {
        Ok(user) => Step::IssueSession(user),
        Err(e) => Step::Answer(e.into_response()),
    }
}

/// Makes the reply to a request whose fields were rejected.
pub fn reject(errors: &ValidationErrors) -> (reply: Reply)
    ensures
        reply@ == rejected(errors@),
{
    AppError::ValidationError(errors.describe()).into_response()
}

/// Checks the fields of a request before it is served: hands the request
/// back where none is rejected, and the reply that says why where one is.
pub fn screen<T: Validate>(dto: T) -> (screened: Result<T, Reply>)
    ensures
        match validated(dto.rejections()) {
            Ok(()) => screened == Ok::<T, Reply>(dto),
            Err(errors) => screened matches Err(reply) && reply@ == rejected(errors),
        },
{
    match dto.validate() {
        Ok(()) => Ok(dto),
        Err(errors) => Err(reject(&errors)),
    }
}

/// Checks a request to change the information of an account before it is
/// served: besides its fields, it must hold one at least.
pub fn screen_information(dto: UpdateInformationDto) -> (screened: Result<
    UpdateInformationDto,
    Reply,
>)
    ensures
        match validated(dto@.errors()) {
            Err(errors) => screened matches Err(reply) && reply@ == rejected(errors),
            Ok(()) => if dto@.is_empty() {
                screened matches Err(reply) && reply@ == bad_request().reply()
            } else {
                screened == Ok::<UpdateInformationDto, Reply>(dto)
            },
        },
{
    match screen(dto) {
        Err(reply) => Err(reply),
        Ok(dto) => {
            if dto.is_empty() {
                Err(bad_request_error().into_response())
            } else {
                Ok(dto)
            }
        },
    }
}

/// Makes the reply to a request that ends with the issue of a session.
pub fn reply_with_session(status: u16, user: &User, session: Result<String, AppError>) -> (reply:
    Reply)
    ensures
        reply@ == session_reply(status, user@, text_result_view(session)),
{
    match session {
        Ok(token) => Reply {
            status,
            set_cookie: Some(build_cookie(token)),
            body: Body::User(user.public()),
        },
        Err(e) => e.into_response(),
    }
}

/// Makes the reply to a logout.
pub fn reply_to_logout(revoked: Result<(), AppError>) -> (reply: Reply)
    ensures
        reply@ == logout_reply(unit_result_view(revoked)),
{
    match revoked {
        Ok(()) => Reply {
            status: STATUS_OK,
            set_cookie: Some(build_deleted_cookie()),
            body: Body::Empty,
        },
        Err(e) => e.into_response(),
    }
}

/// Makes the reply to a request that answers with nothing but success or an error.
pub fn reply_plainly(outcome: Result<(), AppError>) -> (reply: Reply)
    ensures
        reply@ == plain_reply(unit_result_view(outcome)),
{
    match outcome {
        Ok(()) => bare_reply(STATUS_OK),
        Err(e) => e.into_response(),
    }
}

/// Whether `after` and `reply` are what follows from a service's answer
/// `outcome`, reached in the store `served`: on an error the store is
/// `served` and the reply is the error; on success a session with some
/// fresh token is issued to the user at `now`, and the reply carries it
/// under `status` or says why no session was issued.
pub open spec fn ends_with_session(
    served: DatabaseView,
    outcome: Result<UserView, AppErrorView>,
    status: u16,
    now: u64,
    after: DatabaseView,
    reply: ReplyView,
) -> bool {
    match outcome {
        Err(e) => after == served && reply == e.reply(),
        Ok(user) => exists|token: Seq<char>|
            is_token_text(token) && after == (#[trigger] served.issue(user.id, token, now)).0
                && reply == session_reply(status, user, served.issue(user.id, token, now).1),
    }
}

fn end_with_session(
    outcome: Result<User, AppError>,
    status: u16,
    db: &mut Database,
    now: u64,
) -> (reply: Reply)
    requires
        old(db).wf(),
    ensures
        final(db).wf(),
        ends_with_session(old(db)@, result_view(outcome), status, now, final(db)@, reply@),
{
    match next_step(outcome) {
        Step::Answer(reply) => reply,
        Step::IssueSession(user) => {
            let session = services::auth::create_session(user.username.as_str(), user.id, db, now);
            proof {
                let token = choose|token: Seq<char>|
                    is_token_text(token) && (db@, text_result_view(session)) == #[trigger] old(
                        db,
                    )@.issue(user.id, token, now);
                assert(db@ == old(db)@.issue(user.id, token, now).0);
            }
            reply_with_session(status, &user, session)
        },
    }
}

/// Whether `after` and `reply` are what a registration leads to from the
/// store `before`: a request with a rejected field changes nothing; any
/// other is registered with some fresh salt, with which the hasher derives
/// a digest, and the account that was created is issued a session and
/// answered with the status 201.
pub open spec fn registers(
    before: DatabaseView,
    dto: CreateDtoView,
    now: u64,
    after: DatabaseView,
    reply: ReplyView,
) -> bool {
    match validated(dto.errors()) {
        Err(errors) => after == before && reply == rejected(errors),
        Ok(()) => exists|salt: Seq<char>|
            is_salt_for(salt, dto.password) && ends_with_session(
                (#[trigger] before.register(dto, salt, now)).0,
                before.register(dto, salt, now).1,
                STATUS_CREATED,
                now,
                after,
                reply,
            ),
    }
}

/// Registers an account and logs it in.
pub fn register(create_dto: CreateDto, db: &mut Database, now: u64) -> (reply: Reply)
    requires
        old(db).wf(),
    ensures
        final(db).wf(),
        registers(old(db)@, create_dto@, now, final(db)@, reply@),
{
    let ghost dto = create_dto@;
    let create_dto = match screen(create_dto) {
        Ok(create_dto) => create_dto,
        Err(reply) => {
            return reply;
        },
    };
    let created = services::user::create(create_dto, db, now);
    let ghost served = db@;
    let reply = end_with_session(created, STATUS_CREATED, db, now);
    proof {
        let salt = choose|salt: Seq<char>|
            is_salt_for(salt, dto.password) && (served, result_view(created)) == #[trigger] old(
                db,
            )@.register(dto, salt, now);
        assert(old(db)@.register(dto, salt, now).0 == served);
    }
    reply
}

/// Whether `after` and `reply` are what a login leads to from the store
/// `before`: a request with a rejected field and a login that fails change
/// nothing; the user who logs in is issued a session and answered with the
/// status 200.
pub open spec fn logs_in(
    before: DatabaseView,
    dto: LoginDtoView,
    now: u64,
    after: DatabaseView,
    reply: ReplyView,
) -> bool {
    match validated(dto.errors()) {
        Err(errors) => after == before && reply == rejected(errors),
        Ok(()) => ends_with_session(before, before.login(dto), STATUS_OK, now, after, reply),
    }
}

/// Logs a user in.
pub fn login(login_dto: LoginDto, db: &mut Database, now: u64) -> (reply: Reply)
    requires
        old(db).wf(),
    ensures
        final(db).wf(),
        logs_in(old(db)@, login_dto@, now, final(db)@, reply@),
{
    let login_dto = match screen(login_dto) {
        Ok(login_dto) => login_dto,
        Err(reply) => {
            return reply;
        },
    };
    let found = services::user::login(login_dto, db);
    end_with_session(found, STATUS_OK, db, now)
}

/// Issues a new session to the user of the request, in place of the one it
/// came with.
pub fn refresh(user: User, db: &mut Database, now: u64) -> (reply: Reply)
    requires
        old(db).wf(),
    ensures
        final(db).wf(),
        ends_with_session(
            old(db)@,
            Ok::<UserView, AppErrorView>(user@),
            STATUS_OK,
            now,
            final(db)@,
            reply@,
        ),
{
    end_with_session(Ok(user), STATUS_OK, db, now)
}

/// Revokes the session of the user of the request and tells the client to
/// drop its cookie.
pub fn logout(user: User, db: &mut Database) -> (reply: Reply)
    requires
        old(db).wf(),
    ensures
        final(db).wf(),
        final(db)@ == old(db)@.without_session(user.id),
        reply@ == logout_reply(old(db)@.revoke(user.id)),
{
    reply_to_logout(services::auth::delete_session(user.id, db))
}

/// Whether `after` and `reply` are what a change of information leads to
/// from the store `before`: a request with a rejected field, and one that
/// holds no field, change nothing; after any other the account as it was
/// written is issued a session and answered with the status 201.
pub open spec fn updates_information(
    before: DatabaseView,
    user: UserView,
    dto: UpdateInformationDtoView,
    now: u64,
    after: DatabaseView,
    reply: ReplyView,
) -> bool {
    match validated(dto.errors()) {
        Err(errors) => after == before && reply == rejected(errors),
        Ok(()) => if dto.is_empty() {
            after == before && reply == bad_request().reply()
        } else {
            ends_with_session(
                before.update_information(dto, user, now).0,
                before.update_information(dto, user, now).1,
                STATUS_CREATED,
                now,
                after,
                reply,
            )
        },
    }
}

/// Changes the information of the user of the request.
pub fn update_information(
    user: User,
    update_info_dto: UpdateInformationDto,
    db: &mut Database,
    now: u64,
) -> (reply: Reply)
    requires
        old(db).wf(),
    ensures
        final(db).wf(),
        updates_information(old(db)@, user@, update_info_dto@, now, final(db)@, reply@),
{
    let update_info_dto = match screen_information(update_info_dto) {
        Ok(update_info_dto) => update_info_dto,
        Err(reply) => {
            return reply;
        },
    };
    let updated = services::user::update_information(update_info_dto, user, db, now);
    end_with_session(updated, STATUS_CREATED, db, now)
}

/// Whether `after` and `reply` are what a change of password leads to from
/// the store `before`: a request with a rejected field changes nothing; any
/// other is served with some fresh salt and answered with the status 200 or
/// with the error of the service.
pub open spec fn updates_password(
    before: DatabaseView,
    user: UserView,
    dto: UpdatePasswordDtoView,
    now: u64,
    after: DatabaseView,
    reply: ReplyView,
) -> bool {
    match validated(dto.errors()) {
        Err(errors) => after == before && reply == rejected(errors),
        Ok(()) => exists|salt: Seq<char>|
            is_salt_for_change(salt, dto, user) && after == (#[trigger] before.update_password(
                dto,
                user,
                salt,
                now,
            )).0 && reply == plain_reply(before.update_password(dto, user, salt, now).1),
    }
}

/// Changes the password of the user of the request.
pub fn update_password(
    user: User,
    update_pass_dto: UpdatePasswordDto,
    db: &mut Database,
    now: u64,
) -> (reply: Reply)
    requires
        old(db).wf(),
    ensures
        final(db).wf(),
        updates_password(old(db)@, user@, update_pass_dto@, now, final(db)@, reply@),
{
    let ghost dto = update_pass_dto@;
    let ghost who = user@;
    let update_pass_dto = match screen(update_pass_dto) {
        Ok(update_pass_dto) => update_pass_dto,
        Err(reply) => {
            return reply;
        },
    };
    let outcome = services::user::update_password(update_pass_dto, user, db, now);
    let reply = reply_plainly(outcome);
    proof {
        let salt = choose|salt: Seq<char>|
            is_salt_for_change(salt, dto, who) && (db@, unit_result_view(outcome))
                == #[trigger] old(db)@.update_password(dto, who, salt, now);
        assert(db@ == old(db)@.update_password(dto, who, salt, now).0);
    }
    reply
}

/// Answers the request to delete an account, which this service accepts
/// and does not act on.
pub fn delete() -> (reply: Reply)
    ensures
        reply@ == bare(STATUS_OK),
{
    bare_reply(STATUS_OK)
}

} // verus!
