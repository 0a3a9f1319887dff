//! Tasks: each belongs to one user, and only that user sees or changes it.

use vstd::prelude::*;
use vstd::string::*;
use crate::db::tasks::task_views;
use crate::db::{
    answer_view, rows_view, Database, DatabaseView, StoreFailure, StoreFailureView,
};
use crate::error::{result_view, unit_result_view, AppError, AppErrorView, NotFoundKind};
use crate::modules::task::{CreateDto, CreateDtoView, Task, TaskView, UpdateDto, UpdateDtoView};
use crate::services::user::{bad_request, bad_request_error};
use crate::text::opt_text;

verus! {

/// The text that is written for a field: the one of the request, or the
/// default where the request holds none.
pub open spec fn or_default(value: Option<Seq<char>>, default: Seq<char>) -> Seq<char> {
    match value {
        Some(text) => text,
        None => default,
    }
}

/// The columns of a task as they are to be written.
#[derive(Debug, PartialEq, Eq)]
pub struct TaskColumns {
    pub title: String,
    pub body: String,
    pub state: String,
    pub priority: String,
}

/// [`TaskColumns`] over sequences of characters.
pub struct TaskColumnsView {
    pub title: Seq<char>,
    pub body: Seq<char>,
    pub state: Seq<char>,
    pub priority: Seq<char>,
}

impl View for TaskColumns {
    type V = TaskColumnsView;

    open spec fn view(&self) -> TaskColumnsView {
        TaskColumnsView {
            title: self.title@,
            body: self.body@,
            state: self.state@,
            priority: self.priority@,
        }
    }
}

/// What is written for a new task: a task without a body has an empty one,
/// one without a state is to do, and one without a priority has a medium
/// one.
pub open spec fn new_columns(dto: CreateDtoView) -> TaskColumnsView {
    TaskColumnsView {
        title: dto.title,
        body: or_default(dto.body, ""@),
        state: or_default(dto.state, "TO_DO"@),
        priority: or_default(dto.priority, "MEDIUM"@),
    }
}

/// What is written for a request to change a task: an absent field is
/// written as the empty text, which keeps the column; a request that names
/// no field is rejected.
pub open spec fn changed_columns(dto: UpdateDtoView) -> Result<TaskColumnsView, AppErrorView> {
    if names_a_field(dto) {
        Ok(
            TaskColumnsView {
                title: or_default(dto.title, ""@),
                body: or_default(dto.body, ""@),
                state: or_default(dto.state, ""@),
                priority: or_default(dto.priority, ""@),
            },
        )
    } else {
        Err(bad_request())
    }
}

/// What creating a task answers once the store has answered the insert.
pub open spec fn task_created(answer: Result<TaskView, StoreFailureView>) -> Result<
    TaskView,
    AppErrorView,
> {
    match answer {
        Ok(task) => Ok(task),
        Err(_) => Err(AppErrorView::InternalServer),
    }
}

/// What listing the tasks of a user answers once the store has answered the query.
pub open spec fn tasks_listed(answer: Result<Seq<TaskView>, StoreFailureView>) -> Result<
    Seq<TaskView>,
    AppErrorView,
> {
    match answer {
        Ok(tasks) => Ok(tasks),
        Err(StoreFailureView::RowNotFound) => Err(AppErrorView::NotFound(NotFoundKind::Data)),
        Err(_) => Err(AppErrorView::InternalServer),
    }
}

/// What changing a task answers once the store has answered the update.
pub open spec fn task_changed(answer: Result<TaskView, StoreFailureView>) -> Result<
    TaskView,
    AppErrorView,
> {
    match answer {
        Ok(task) => Ok(task),
        Err(StoreFailureView::RowNotFound) => Err(AppErrorView::NotFound(NotFoundKind::Data)),
        Err(_) => Err(AppErrorView::InternalServer),
    }
}

/// What deleting a task answers once the store has answered the delete.
pub open spec fn task_removed(deleted: Result<u64, StoreFailureView>) -> Result<(), AppErrorView> {
    match deleted {
        Ok(rows) => if rows > 0 {
            Ok(())
        } else {
            Err(AppErrorView::NotFound(NotFoundKind::Data))
        },
        Err(_) => Err(AppErrorView::InternalServer),
    }
}

/// Whether a request to change a task names a field.
pub open spec fn names_a_field(dto: UpdateDtoView) -> bool {
    dto.title is Some || dto.body is Some || dto.state is Some || dto.priority is Some
}

/// The view of the store's answer to a query for tasks.
pub open spec fn tasks_answer_view(answer: Result<Vec<Task>, StoreFailure>) -> Result<
    Seq<TaskView>,
    StoreFailureView,
> {
    match answer {
        Ok(tasks) => Ok(task_views(tasks@)),
        Err(failure) => Err(failure@),
    }
}

/// The view of a result that holds tasks.
pub open spec fn tasks_result_view(r: Result<Vec<Task>, AppError>) -> Result<
    Seq<TaskView>,
    AppErrorView,
> {
    match r {
        Ok(tasks) => Ok(task_views(tasks@)),
        Err(e) => Err(e@),
    }
}

impl DatabaseView {
    /// The store and the answer after the user `user_id` created a task: a
    /// task without a body has an empty one, one without a state is to do,
    /// and one without a priority has a medium one.
    pub open spec fn create_task(self, dto: CreateDtoView, user_id: i32, now: u64) -> (
        DatabaseView,
        Result<TaskView, AppErrorView>,
    ) {
        let columns = new_columns(dto);
        let after = self.tasks.insert(
            user_id,
            columns.title,
            columns.body,
            columns.state,
            columns.priority,
            now,
        );
        (DatabaseView { tasks: after.0, ..self }, task_created(after.1))
    }

    /// The tasks of the user `user_id`.
    pub open spec fn tasks_of(self, user_id: i32) -> Result<Seq<TaskView>, AppErrorView> {
        Ok(self.tasks.of_user(user_id))
    }

    /// The store and the answer after the user `user_id` asked to change
    /// the task `id`. A request that names no field is rejected and nothing
    /// is written; a field that is absent or empty keeps its value.
    pub open spec fn change_task(self, dto: UpdateDtoView, id: i32, user_id: i32, now: u64) -> (
        DatabaseView,
        Result<TaskView, AppErrorView>,
    ) {
        match changed_columns(dto) {
            Err(e) => (self, Err(e)),
            Ok(columns) => {
                let after = self.tasks.update(
                    id,
                    user_id,
                    columns.title,
                    columns.body,
                    columns.state,
                    columns.priority,
                    true,
                    now,
                );
                (DatabaseView { tasks: after.0, ..self }, task_changed(after.1))
            },
        }
    }

    /// The store and the answer after the user `user_id` asked to delete
    /// the task `id`.
    pub open spec fn remove_task(self, id: i32, user_id: i32) -> (
        DatabaseView,
        Result<(), AppErrorView>,
    ) {
        let after = self.tasks.delete(id, user_id);
        (DatabaseView { tasks: after.0, ..self }, task_removed(Ok(after.1)))
    }
}

/// Takes the text of a field of a request, or the default.
pub fn text_or(value: Option<String>, default: &str) -> (text: String)
    ensures
        text@ == or_default(opt_text(value), default@),
{
    match value {
        Some(text) => text,
        None => String::from_str(default),
    }
}

/// Fills in the defaults of a new task.
pub fn new_task(create_dto: CreateDto) -> (columns: TaskColumns)
    ensures
        columns@ == new_columns(create_dto@),
{
    TaskColumns {
        title: create_dto.title,
        body: text_or(create_dto.body, ""),
        state: text_or(create_dto.state, "TO_DO"),
        priority: text_or(create_dto.priority, "MEDIUM"),
    }
}

/// Prepares the change of a task, or rejects the request that names no field.
pub fn task_change(update_dto: UpdateDto) -> (columns: Result<TaskColumns, AppError>)
    ensures
        result_view(columns) == changed_columns(update_dto@),
{
    if !is_update(&update_dto) {
        return Err(bad_request_error());
    }
    Ok(
        TaskColumns {
            title: text_or(update_dto.title, ""),
            body: text_or(update_dto.body, ""),
            state: text_or(update_dto.state, ""),
            priority: text_or(update_dto.priority, ""),
        },
    )
}

/// Decides what creating a task answers from the store's answer to the insert.
pub fn task_inserted(answer: Result<Task, StoreFailure>) -> (outcome: Result<Task, AppError>)
    ensures
        result_view(outcome) == task_created(answer_view(answer)),
{
    match answer {
        Ok(task) => Ok(task),
        Err(_) => Err(AppError::InternalServer),
    }
}

/// Decides what listing tasks answers from the store's answer to the query.
pub fn tasks_fetched(answer: Result<Vec<Task>, StoreFailure>) -> (outcome: Result<
    Vec<Task>,
    AppError,
>)
    ensures
        tasks_result_view(outcome) == tasks_listed(tasks_answer_view(answer)),
{
    match answer {
        Ok(tasks) => Ok(tasks),
        Err(StoreFailure::RowNotFound) => Err(AppError::NotFound(NotFoundKind::Data)),
        Err(_) => Err(AppError::InternalServer),
    }
}

/// Decides what changing a task answers from the store's answer to the update.
pub fn task_updated(answer: Result<Task, StoreFailure>) -> (outcome: Result<Task, AppError>)
    ensures
        result_view(outcome) == task_changed(answer_view(answer)),
{
    match answer {
        Ok(task) => Ok(task),
        Err(StoreFailure::RowNotFound) => Err(AppError::NotFound(NotFoundKind::Data)),
        Err(_) => Err(AppError::InternalServer),
    }
}

/// Decides what deleting a task answers from the store's answer to the delete.
pub fn task_deleted(deleted: Result<u64, StoreFailure>) -> (outcome: Result<(), AppError>)
    ensures
        unit_result_view(outcome) == task_removed(rows_view(deleted)),
{
    match deleted {
        Ok(rows) => {
            if rows > 0 {
                Ok(())
            } else {
                Err(AppError::NotFound(NotFoundKind::Data))
            }
        },
        Err(_) => Err(AppError::InternalServer),
    }
}

/// Whether a request to change a task names a field.
pub fn is_update(update_dto: &UpdateDto) -> (named: bool)
    ensures
        named == names_a_field(update_dto@),
{
    update_dto.title.is_some() || update_dto.body.is_some() || update_dto.state.is_some()
        || update_dto.priority.is_some()
}

/// Creates a task for the user `user_id`.
pub fn create(create_dto: CreateDto, user_id: i32, db: &mut Database, now: u64) -> (outcome:
    Result<Task, AppError>)
    requires
        old(db).wf(),
    ensures
        final(db).wf(),
        (final(db)@, result_view(outcome)) == old(db)@.create_task(create_dto@, user_id, now),
{
    let columns = new_task(create_dto);
    let answer = db.tasks.insert(
        user_id,
        columns.title,
        columns.body,
        columns.state,
        columns.priority,
        now,
    );
    task_inserted(answer)
}

/// Lists the tasks of the user `user_id`, and of no other user.
pub fn get_all(user_id: i32, db: &Database) -> (outcome: Result<Vec<Task>, AppError>)
    ensures
        tasks_result_view(outcome) == db@.tasks_of(user_id),
{
    tasks_fetched(db.tasks.of_user(user_id))
}

/// Changes the task `id` of the user `user_id`.
pub fn udpate(
    update_dto: UpdateDto,
    id: i32,
    user_id: i32,
    db: &mut Database,
    now: u64,
) -> (outcome: Result<Task, AppError>)
    requires
        old(db).wf(),
    ensures
        final(db).wf(),
        (final(db)@, result_view(outcome)) == old(db)@.change_task(update_dto@, id, user_id, now),
{
    match task_change(update_dto) {
        Err(e) => Err(e),
        Ok(columns) => {
            let answer = db.tasks.update(
                id,
                user_id,
                columns.title,
                columns.body,
                columns.state,
                columns.priority,
                true,
                now,
            );
            task_updated(answer)
        },
    }
}

/// Deletes the task `id` of the user `user_id`.
pub fn delete(id: i32, user_id: i32, db: &mut Database) -> (outcome: Result<(), AppError>)
    requires
        old(db).wf(),
    ensures
        final(db).wf(),
        (final(db)@, unit_result_view(outcome)) == old(db)@.remove_task(id, user_id),
{
    let deleted = db.tasks.delete(id, user_id);
    task_deleted(deleted)
}

} // verus!
