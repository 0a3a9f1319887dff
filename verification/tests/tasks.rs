use todolistify::db::{Database, StoreFailure};
use todolistify::error::{AppError, NotFoundKind};
use todolistify::modules::task::{CreateDto, Task, UpdateDto};
use todolistify::services::task::{
    create, delete, get_all, is_update, new_task, task_change, task_deleted, task_inserted,
    task_updated, tasks_fetched, text_or, udpate, TaskColumns,
};

fn titled(title: &str) -> CreateDto {
    CreateDto { title: title.to_string(), body: None, state: None, priority: None }
}

fn no_change() -> UpdateDto {
    UpdateDto { title: None, body: None, state: None, priority: None }
}

#[test]
fn new_task_takes_the_defaults() {
    let mut db = Database::new();
    let task = create(titled("write"), 7, &mut db, 0).unwrap();
    assert_eq!(
        task,
        Task {
            id: 1,
            user_id: 7,
            title: "write".to_string(),
            body: Some(String::new()),
            state: "TO_DO".to_string(),
            priority: "MEDIUM".to_string(),
            created_at: Some("1970-01-01T00:00:00Z".to_string()),
            updated_at: Some("1970-01-01T00:00:00Z".to_string()),
        }
    );
}

#[test]
fn new_task_keeps_what_the_request_holds() {
    let mut db = Database::new();
    let request = CreateDto {
        title: "write".to_string(),
        body: Some("a letter".to_string()),
        state: Some("DONE".to_string()),
        priority: Some("HIGH".to_string()),
    };
    let task = create(request, 7, &mut db, 0).unwrap();
    assert_eq!(task.body, Some("a letter".to_string()));
    assert_eq!(task.state, "DONE");
    assert_eq!(task.priority, "HIGH");
}

#[test]
fn tasks_are_listed_for_their_owner_only_in_order() {
    let mut db = Database::new();
    let a1 = create(titled("a1"), 1, &mut db, 10).unwrap();
    let b1 = create(titled("b1"), 2, &mut db, 20).unwrap();
    let a2 = create(titled("a2"), 1, &mut db, 30).unwrap();
    assert_eq!(get_all(1, &db), Ok(vec![a1, a2]));
    assert_eq!(get_all(2, &db), Ok(vec![b1]));
    assert_eq!(get_all(3, &db), Ok(vec![]));
}

#[test]
fn change_without_a_field_is_a_bad_request() {
    let mut db = Database::new();
    let task = create(titled("write"), 1, &mut db, 10).unwrap();
    let outcome = udpate(no_change(), task.id, 1, &mut db, 20);
    assert_eq!(outcome, Err(AppError::ValidationError("Bad Request!".to_string())));
    assert_eq!(get_all(1, &db), Ok(vec![task]));
}

#[test]
fn change_keeps_absent_and_empty_fields() {
    let mut db = Database::new();
    let request = CreateDto {
        title: "write".to_string(),
        body: Some("a letter".to_string()),
        state: None,
        priority: None,
    };
    let task = create(request, 1, &mut db, 0).unwrap();
    let change = UpdateDto {
        title: Some(String::new()),
        body: None,
        state: Some("DONE".to_string()),
        priority: None,
    };
    let changed = udpate(change, task.id, 1, &mut db, 60).unwrap();
    assert_eq!(
        changed,
        Task {
            state: "DONE".to_string(),
            updated_at: Some("1970-01-01T00:01:00Z".to_string()),
            ..task
        }
    );
    assert_eq!(get_all(1, &db), Ok(vec![changed]));
}

#[test]
fn change_of_another_users_task_is_not_found() {
    let mut db = Database::new();
    let task = create(titled("write"), 1, &mut db, 10).unwrap();
    let change = UpdateDto { title: Some("stolen".to_string()), ..no_change() };
    assert_eq!(
        udpate(change, task.id, 2, &mut db, 20),
        Err(AppError::NotFound(NotFoundKind::Data))
    );
    assert_eq!(get_all(1, &db), Ok(vec![task]));
}

#[test]
fn delete_removes_own_task_only() {
    let mut db = Database::new();
    let mine = create(titled("mine"), 1, &mut db, 10).unwrap();
    let theirs = create(titled("theirs"), 2, &mut db, 10).unwrap();
    assert_eq!(delete(theirs.id, 1, &mut db), Err(AppError::NotFound(NotFoundKind::Data)));
    assert_eq!(delete(mine.id, 1, &mut db), Ok(()));
    assert_eq!(delete(mine.id, 1, &mut db), Err(AppError::NotFound(NotFoundKind::Data)));
    assert_eq!(get_all(1, &db), Ok(vec![]));
    assert_eq!(get_all(2, &db), Ok(vec![theirs]));
}

#[test]
fn identifiers_are_not_reused_after_a_delete() {
    let mut db = Database::new();
    let first = create(titled("first"), 1, &mut db, 10).unwrap();
    assert_eq!(delete(first.id, 1, &mut db), Ok(()));
    let second = create(titled("second"), 1, &mut db, 10).unwrap();
    assert_eq!((first.id, second.id), (1, 2));
}

#[test]
fn store_answers_decide_task_outcomes() {
    assert_eq!(task_inserted(Err(StoreFailure::Other)), Err(AppError::InternalServer));
    assert_eq!(task_inserted(Err(StoreFailure::RowNotFound)), Err(AppError::InternalServer));
    assert_eq!(tasks_fetched(Ok(vec![])), Ok(vec![]));
    assert_eq!(
        tasks_fetched(Err(StoreFailure::RowNotFound)),
        Err(AppError::NotFound(NotFoundKind::Data))
    );
    assert_eq!(tasks_fetched(Err(StoreFailure::Other)), Err(AppError::InternalServer));
    assert_eq!(
        task_updated(Err(StoreFailure::RowNotFound)),
        Err(AppError::NotFound(NotFoundKind::Data))
    );
    assert_eq!(
        task_updated(Err(StoreFailure::Database(None))),
        Err(AppError::InternalServer)
    );
    assert_eq!(task_deleted(Ok(1)), Ok(()));
    assert_eq!(task_deleted(Ok(0)), Err(AppError::NotFound(NotFoundKind::Data)));
    assert_eq!(task_deleted(Err(StoreFailure::Other)), Err(AppError::InternalServer));
}

#[test]
fn request_names_a_field_if_any_is_present() {
    assert!(!is_update(&no_change()));
    assert!(is_update(&UpdateDto { title: Some(String::new()), ..no_change() }));
    assert!(is_update(&UpdateDto { body: Some("b".to_string()), ..no_change() }));
    assert!(is_update(&UpdateDto { state: Some("DONE".to_string()), ..no_change() }));
    assert!(is_update(&UpdateDto { priority: Some("LOW".to_string()), ..no_change() }));
}

#[test]
fn absent_text_takes_the_default() {
    assert_eq!(text_or(None, "MEDIUM"), "MEDIUM");
    assert_eq!(text_or(Some("HIGH".to_string()), "MEDIUM"), "HIGH");
}

#[test]
fn new_task_columns_take_the_defaults() {
    assert_eq!(
        new_task(titled("write")),
        TaskColumns {
            title: "write".to_string(),
            body: String::new(),
            state: "TO_DO".to_string(),
            priority: "MEDIUM".to_string(),
        }
    );
}

#[test]
fn task_change_writes_absent_fields_as_empty() {
    let change = UpdateDto { state: Some("DONE".to_string()), ..no_change() };
    assert_eq!(
        task_change(change),
        Ok(TaskColumns {
            title: String::new(),
            body: String::new(),
            state: "DONE".to_string(),
            priority: String::new(),
        })
    );
    assert_eq!(
        task_change(no_change()),
        Err(AppError::ValidationError("Bad Request!".to_string()))
    );
}
