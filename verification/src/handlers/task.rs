//! The requests about tasks. Each is made by a user whom the guard has
//! admitted, and touches the tasks of that user alone.

use vstd::prelude::*;
use crate::db::{Database, DatabaseView};
use crate::error::{result_view, AppError, AppErrorView};
use crate::handlers::user::{plain_reply, rejected, reply_plainly, screen};
use crate::modules::task::{CreateDto, CreateDtoView, Task, TaskView, UpdateDto, UpdateDtoView};
use crate::modules::user::User;
use crate::reply::{Body, BodyView, Reply, ReplyView, STATUS_CREATED, STATUS_OK};
use crate::services;
use crate::services::task::tasks_result_view;
use crate::validation::validated;

verus! {

/// The reply that carries a task, or the error for which there is none.
pub open spec fn task_reply(status: u16, outcome: Result<TaskView, AppErrorView>) -> ReplyView {
    match outcome {
        Ok(task) => ReplyView { status, set_cookie: None, body: BodyView::Task(task) },
        Err(e) => e.reply(),
    }
}

/// The reply that carries the tasks of a user, or the error for which there
/// are none.
pub open spec fn tasks_reply(outcome: Result<Seq<TaskView>, AppErrorView>) -> ReplyView {
    match outcome {
        Ok(tasks) => ReplyView {
            status: STATUS_OK,
            set_cookie: None,
            body: BodyView::Tasks(tasks),
        },
        Err(e) => e.reply(),
    }
}

/// Makes the reply that carries a task.
pub fn reply_with_task(status: u16, outcome: Result<Task, AppError>) -> (reply: Reply)
    ensures
        reply@ == task_reply(status, result_view(outcome)),
{
    match outcome {
        Ok(task) => Reply { status, set_cookie: None, body: Body::Task(task) },
        Err(e) => e.into_response(),
    }
}

/// Makes the reply that carries the tasks of a user.
pub fn reply_with_tasks(outcome: Result<Vec<Task>, AppError>) -> (reply: Reply)
    ensures
        reply@ == tasks_reply(tasks_result_view(outcome)),
{
    match outcome {
        Ok(tasks) => Reply { status: STATUS_OK, set_cookie: None, body: Body::Tasks(tasks) },
        Err(e) => e.into_response(),
    }
}

/// Lists the tasks of the user of the request.
pub fn get_all(user: &User, db: &Database) -> (reply: Reply)
    ensures
        reply@ == tasks_reply(db@.tasks_of(user.id)),
{
    reply_with_tasks(services::task::get_all(user.id, db))
}

/// The store and the reply after the user `user_id` asked to create a task.
pub open spec fn creates(before: DatabaseView, user_id: i32, dto: CreateDtoView, now: u64) -> (
    DatabaseView,
    ReplyView,
) {
    match validated(dto.errors()) {
        Err(errors) => (before, rejected(errors)),
        Ok(()) => {
            let after = before.create_task(dto, user_id, now);
            (after.0, task_reply(STATUS_CREATED, after.1))
        },
    }
}

/// Creates a task for the user of the request.
pub fn create(user: &User, create_dto: CreateDto, db: &mut Database, now: u64) -> (reply: Reply)
    requires
        old(db).wf(),
    ensures
        final(db).wf(),
        (final(db)@, reply@) == creates(old(db)@, user.id, create_dto@, now),
{
    match screen(create_dto) {
        Err(reply) => reply,
        Ok(create_dto) => reply_with_task(
            STATUS_CREATED,
            services::task::create(create_dto, user.id, db, now),
        ),
    }
}

/// The store and the reply after the user `user_id` asked to change the task `id`.
pub open spec fn updates(
    before: DatabaseView,
    id: i32,
    user_id: i32,
    dto: UpdateDtoView,
    now: u64,
) -> (DatabaseView, ReplyView) {
    match validated(dto.errors()) {
        Err(errors) => (before, rejected(errors)),
        Ok(()) => {
            let after = before.change_task(dto, id, user_id, now);
            (after.0, task_reply(STATUS_OK, after.1))
        },
    }
}

/// Changes the task `id` of the user of the request.
pub fn update(id: i32, user: &User, update_dto: UpdateDto, db: &mut Database, now: u64) -> (reply:
    Reply)
    requires
        old(db).wf(),
    ensures
        final(db).wf(),
        (final(db)@, reply@) == updates(old(db)@, id, user.id, update_dto@, now),
{
    match screen(update_dto) {
        Err(reply) => reply,
        Ok(update_dto) => reply_with_task(
            STATUS_OK,
            services::task::udpate(update_dto, id, user.id, db, now),
        ),
    }
}

/// Deletes the task `id` of the user of the request.
pub fn delete(id: i32, user: &User, db: &mut Database) -> (reply: Reply)
    requires
        old(db).wf(),
    ensures
        final(db).wf(),
        final(db)@ == old(db)@.remove_task(id, user.id).0,
        reply@ == plain_reply(old(db)@.remove_task(id, user.id).1),
{
    reply_plainly(services::task::delete(id, user.id, db))
}

} // verus!
