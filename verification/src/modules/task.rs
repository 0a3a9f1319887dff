//! The task record and the requests that concern it.

use vstd::prelude::*;
use vstd::string::*;
use crate::text::{clone_opt, opt_text};
use crate::validation::{
    finish, if_present, length_validate, length_verdict, noted, rejection, validated,
    validation_view, verdict_view, FieldErrorView, Validate, ValidationError,
    ValidationErrorView, ValidationErrors,
};

verus! {

/// A task as the store returns it.
#[derive(Debug, PartialEq, Eq)]
pub struct Task {
    pub id: i32,
    pub user_id: i32,
    pub title: String,
    pub body: Option<String>,
    pub state: String,
    pub priority: String,
    pub created_at: Option<String>,
    pub updated_at: Option<String>,
}

/// A [`Task`] over sequences of characters.
pub struct TaskView {
    pub id: i32,
    pub user_id: i32,
    pub title: Seq<char>,
    pub body: Option<Seq<char>>,
    pub state: Seq<char>,
    pub priority: Seq<char>,
    pub created_at: Option<Seq<char>>,
    pub updated_at: Option<Seq<char>>,
}

impl View for Task {
    type V = TaskView;

    open spec fn view(&self) -> TaskView {
        TaskView {
            id: self.id,
            user_id: self.user_id,
            title: self.title@,
            body: opt_text(self.body),
            state: self.state@,
            priority: self.priority@,
            created_at: opt_text(self.created_at),
            updated_at: opt_text(self.updated_at),
        }
    }
}

impl Clone for Task {
    fn clone(&self) -> (copy: Self)
        ensures
            copy == *self,
    {
        Task {
            id: self.id,
            user_id: self.user_id,
            title: self.title.clone(),
            body: clone_opt(&self.body),
            state: self.state.clone(),
            priority: self.priority.clone(),
            created_at: clone_opt(&self.created_at),
            updated_at: clone_opt(&self.updated_at),
        }
    }
}

/// A request to create a task. A field that is absent takes its default.
#[derive(Debug, PartialEq, Eq)]
pub struct CreateDto {
    pub title: String,
    pub body: Option<String>,
    pub state: Option<String>,
    pub priority: Option<String>,
}

/// A request to change a task. A field that is absent keeps its value.
#[derive(Debug, PartialEq, Eq)]
pub struct UpdateDto {
    pub title: Option<String>,
    pub body: Option<String>,
    pub state: Option<String>,
    pub priority: Option<String>,
}

/// A [`CreateDto`] over sequences of characters.
pub struct CreateDtoView {
    pub title: Seq<char>,
    pub body: Option<Seq<char>>,
    pub state: Option<Seq<char>>,
    pub priority: Option<Seq<char>>,
}

impl View for CreateDto {
    type V = CreateDtoView;

    open spec fn view(&self) -> CreateDtoView {
        CreateDtoView {
            title: self.title@,
            body: opt_text(self.body),
            state: opt_text(self.state),
            priority: opt_text(self.priority),
        }
    }
}

/// An [`UpdateDto`] over sequences of characters.
pub struct UpdateDtoView {
    pub title: Option<Seq<char>>,
    pub body: Option<Seq<char>>,
    pub state: Option<Seq<char>>,
    pub priority: Option<Seq<char>>,
}

impl View for UpdateDto {
    type V = UpdateDtoView;

    open spec fn view(&self) -> UpdateDtoView {
        UpdateDtoView {
            title: opt_text(self.title),
            body: opt_text(self.body),
            state: opt_text(self.state),
            priority: opt_text(self.priority),
        }
    }
}

/// What the check of the state of a task finds.
pub open spec fn state_verdict(state: Seq<char>) -> Result<(), ValidationErrorView> {
    if state == "TO_DO"@ || state == "IN_PROGRESS"@ || state == "DONE"@ {
        Ok(())
    } else {
        Err(rejection("state must be one of ('TO_DO', 'IN_PROGRESS', 'DONE')"@))
    }
}

/// What the check of the priority of a task finds.
pub open spec fn priority_verdict(priority: Seq<char>) -> Result<(), ValidationErrorView> {
    if priority == "LOW"@ || priority == "MEDIUM"@ || priority == "HIGH"@ {
        Ok(())
    } else {
        Err(rejection("priority must be one of ('LOW', 'MEDIUM', 'HIGH')"@))
    }
}

/// Checks the state of a task: to do, in progress or done.
pub fn state_validate(state: &String) -> (verdict: Result<(), ValidationError>)
    ensures
        verdict_view(verdict) == state_verdict(state@),
{
    if *state == String::from_str("TO_DO") || *state == String::from_str("IN_PROGRESS") || *state
        == String::from_str("DONE") {
        Ok(())
    } else {
        Err(ValidationError::new("state must be one of ('TO_DO', 'IN_PROGRESS', 'DONE')"))
    }
}

/// Checks the priority of a task: low, medium or high.
pub fn priority_validate(priority: &String) -> (verdict: Result<(), ValidationError>)
    ensures
        verdict_view(verdict) == priority_verdict(priority@),
{
    if *priority == String::from_str("LOW") || *priority == String::from_str("MEDIUM") || *priority
        == String::from_str("HIGH") {
        Ok(())
    } else {
        Err(ValidationError::new("priority must be one of ('LOW', 'MEDIUM', 'HIGH')"))
    }
}

/// What the check of the length of a title finds.
pub open spec fn title_verdict(title: Seq<char>) -> Result<(), ValidationErrorView> {
    length_verdict(title, 1, 255, "min=1, max=255"@)
}

/// What the check of the length of a body finds.
pub open spec fn body_verdict(body: Seq<char>) -> Result<(), ValidationErrorView> {
    length_verdict(body, 1, 6000, "min=1, max=6000"@)
}

/// What the check of the length of a state finds.
pub open spec fn state_length_verdict(state: Seq<char>) -> Result<(), ValidationErrorView> {
    length_verdict(state, 4, 11, "min=4, max=11"@)
}

/// What the check of the length of a priority finds.
pub open spec fn priority_length_verdict(priority: Seq<char>) -> Result<(), ValidationErrorView> {
    length_verdict(priority, 3, 6, "min=3, max=6"@)
}

/// The rejections of the optional fields of a request about a task, added
/// to those in `e`.
pub open spec fn optional_field_errors(
    e: Seq<FieldErrorView>,
    body: Option<Seq<char>>,
    state: Option<Seq<char>>,
    priority: Option<Seq<char>>,
) -> Seq<FieldErrorView> {
    let e = noted(e, "body"@, if_present(body, |t: Seq<char>| body_verdict(t)));
    let e = noted(e, "state"@, if_present(state, |t: Seq<char>| state_length_verdict(t)));
    let e = noted(e, "state"@, if_present(state, |t: Seq<char>| state_verdict(t)));
    let e = noted(e, "priority"@, if_present(priority, |t: Seq<char>| priority_length_verdict(t)));
    noted(e, "priority"@, if_present(priority, |t: Seq<char>| priority_verdict(t)))
}

fn note_optional_fields(
    record: &mut ValidationErrors,
    body: &Option<String>,
    state: &Option<String>,
    priority: &Option<String>,
)
    ensures
        final(record)@ == optional_field_errors(
            old(record)@,
            opt_text(*body),
            opt_text(*state),
            opt_text(*priority),
        ),
{
    record.note(
        "body",
        match body {
            Some(body) => length_validate(body.as_str(), 1, 6000, "min=1, max=6000"),
            None => Ok(()),
        },
    );
    record.note(
        "state",
        match state {
            Some(state) => length_validate(state.as_str(), 4, 11, "min=4, max=11"),
            None => Ok(()),
        },
    );
    record.note(
        "state",
        match state {
            Some(state) => state_validate(state),
            None => Ok(()),
        },
    );
    record.note(
        "priority",
        match priority {
            Some(priority) => length_validate(priority.as_str(), 3, 6, "min=3, max=6"),
            None => Ok(()),
        },
    );
    record.note(
        "priority",
        match priority {
            Some(priority) => priority_validate(priority),
            None => Ok(()),
        },
    );
}

impl CreateDtoView {
    /// The rejections of the fields of the request, in the order of the fields.
    pub open spec fn errors(self) -> Seq<FieldErrorView> {
        let e = noted(Seq::<FieldErrorView>::empty(), "title"@, title_verdict(self.title));
        optional_field_errors(e, self.body, self.state, self.priority)
    }
}

impl Validate for CreateDto {
    open spec fn rejections(&self) -> Seq<FieldErrorView> {
        self@.errors()
    }

    fn validate(&self) -> (r: Result<(), ValidationErrors>)
        ensures
            validation_view(r) == validated(self@.errors()),
    {
        let mut record = ValidationErrors::new();
        record.note("title", length_validate(self.title.as_str(), 1, 255, "min=1, max=255"));
        note_optional_fields(&mut record, &self.body, &self.state, &self.priority);
        finish(record)
    }
}

impl UpdateDtoView {
    /// The rejections of the fields that the request holds, in the order of
    /// the fields.
    pub open spec fn errors(self) -> Seq<FieldErrorView> {
        let e = noted(
            Seq::<FieldErrorView>::empty(),
            "title"@,
            if_present(self.title, |t: Seq<char>| title_verdict(t)),
        );
        optional_field_errors(e, self.body, self.state, self.priority)
    }
}

impl Validate for UpdateDto {
    open spec fn rejections(&self) -> Seq<FieldErrorView> {
        self@.errors()
    }

    fn validate(&self) -> (r: Result<(), ValidationErrors>)
        ensures
            validation_view(r) == validated(self@.errors()),
    {
        let mut record = ValidationErrors::new();
        record.note(
            "title",
            match &self.title {
                Some(title) => length_validate(title.as_str(), 1, 255, "min=1, max=255"),
                None => Ok(()),
            },
        );
        note_optional_fields(&mut record, &self.body, &self.state, &self.priority);
        finish(record)
    }
}

} // verus!
