//! The account record and the requests that concern it.

use vstd::prelude::*;
use crate::text::{clone_opt, opt_text};
use crate::validation::{
    byte_len, email_validate, email_verdict, finish, first_match_len, if_present,
    length_validate, length_verdict, match_verdict, must_match_validate, noted, pattern_matches,
    regex_first_match, regex_matches, rejection, validated, validation_view, verdict_view,
    FieldErrorView, Validate, ValidationError, ValidationErrorView, ValidationErrors,
};

verus! {

/// An account as the store returns it. `password` holds the stored digest,
/// never the password itself.
#[derive(Debug, PartialEq, Eq)]
pub struct User {
    pub id: i32,
    pub name: String,
    pub username: String,
    pub email: String,
    pub password: String,
    pub create_at: Option<String>,
    pub update_at: Option<String>,
}

/// A [`User`] over sequences of characters.
pub struct UserView {
    pub id: i32,
    pub name: Seq<char>,
    pub username: Seq<char>,
    pub email: Seq<char>,
    pub password: Seq<char>,
    pub create_at: Option<Seq<char>>,
    pub update_at: Option<Seq<char>>,
}

impl View for User {
    type V = UserView;

    open spec fn view(&self) -> UserView {
        UserView {
            id: self.id,
            name: self.name@,
            username: self.username@,
            email: self.email@,
            password: self.password@,
            create_at: opt_text(self.create_at),
            update_at: opt_text(self.update_at),
        }
    }
}

impl Clone for User {
    fn clone(&self) -> (copy: Self)
        ensures
            copy == *self,
    {
        User {
            id: self.id,
            name: self.name.clone(),
            username: self.username.clone(),
            email: self.email.clone(),
            password: self.password.clone(),
            create_at: clone_opt(&self.create_at),
            update_at: clone_opt(&self.update_at),
        }
    }
}

/// What a client is shown of an account: everything but the digest.
#[derive(Debug, PartialEq, Eq)]
pub struct PublicUser {
    pub id: i32,
    pub name: String,
    pub username: String,
    pub email: String,
    pub create_at: Option<String>,
    pub update_at: Option<String>,
}

/// A [`PublicUser`] over sequences of characters.
pub struct PublicUserView {
    pub id: i32,
    pub name: Seq<char>,
    pub username: Seq<char>,
    pub email: Seq<char>,
    pub create_at: Option<Seq<char>>,
    pub update_at: Option<Seq<char>>,
}

impl View for PublicUser {
    type V = PublicUserView;

    open spec fn view(&self) -> PublicUserView {
        PublicUserView {
            id: self.id,
            name: self.name@,
            username: self.username@,
            email: self.email@,
            create_at: opt_text(self.create_at),
            update_at: opt_text(self.update_at),
        }
    }
}

impl Clone for PublicUser {
    fn clone(&self) -> (copy: Self)
        ensures
            copy == *self,
    {
        PublicUser {
            id: self.id,
            name: self.name.clone(),
            username: self.username.clone(),
            email: self.email.clone(),
            create_at: clone_opt(&self.create_at),
            update_at: clone_opt(&self.update_at),
        }
    }
}

impl UserView {
    /// The part of the account that a client is shown.
    pub open spec fn public(self) -> PublicUserView {
        PublicUserView {
            id: self.id,
            name: self.name,
            username: self.username,
            email: self.email,
            create_at: self.create_at,
            update_at: self.update_at,
        }
    }
}

impl User {
    /// The part of the account that a client is shown.
    pub fn public(&self) -> (shown: PublicUser)
        ensures
            shown@ == self@.public(),
    {
        PublicUser {
            id: self.id,
            name: self.name.clone(),
            username: self.username.clone(),
            email: self.email.clone(),
            create_at: clone_opt(&self.create_at),
            update_at: clone_opt(&self.update_at),
        }
    }
}

/// A request to register an account.
#[derive(Debug, PartialEq, Eq)]
pub struct CreateDto {
    pub name: String,
    pub username: String,
    pub email: String,
    pub password: String,
    pub confirmation: String,
}

/// A request to log in.
#[derive(Debug, PartialEq, Eq)]
pub struct LoginDto {
    pub username: String,
    pub password: String,
}

/// A request to change the name, the username or the email address of an
/// account. A field that is absent keeps its value.
#[derive(Debug, PartialEq, Eq)]
pub struct UpdateInformationDto {
    pub name: Option<String>,
    pub username: Option<String>,
    pub email: Option<String>,
}

/// A request to change the password of an account.
#[derive(Debug, PartialEq, Eq)]
pub struct UpdatePasswordDto {
    pub old_password: String,
    pub password: String,
    pub confirmation: String,
}

/// A request to close an account.
#[derive(Debug, PartialEq, Eq)]
pub struct DeleteDto {
    pub password: String,
}

/// A [`CreateDto`] over sequences of characters.
pub struct CreateDtoView {
    pub name: Seq<char>,
    pub username: Seq<char>,
    pub email: Seq<char>,
    pub password: Seq<char>,
    pub confirmation: Seq<char>,
}

impl View for CreateDto {
    type V = CreateDtoView;

    open spec fn view(&self) -> CreateDtoView {
        CreateDtoView {
            name: self.name@,
            username: self.username@,
            email: self.email@,
            password: self.password@,
            confirmation: self.confirmation@,
        }
    }
}

/// A [`LoginDto`] over sequences of characters.
pub struct LoginDtoView {
    pub username: Seq<char>,
    pub password: Seq<char>,
}

impl View for LoginDto {
    type V = LoginDtoView;

    open spec fn view(&self) -> LoginDtoView {
        LoginDtoView { username: self.username@, password: self.password@ }
    }
}

/// An [`UpdateInformationDto`] over sequences of characters.
pub struct UpdateInformationDtoView {
    pub name: Option<Seq<char>>,
    pub username: Option<Seq<char>>,
    pub email: Option<Seq<char>>,
}

impl View for UpdateInformationDto {
    type V = UpdateInformationDtoView;

    open spec fn view(&self) -> UpdateInformationDtoView {
        UpdateInformationDtoView {
            name: opt_text(self.name),
            username: opt_text(self.username),
            email: opt_text(self.email),
        }
    }
}

/// An [`UpdatePasswordDto`] over sequences of characters.
pub struct UpdatePasswordDtoView {
    pub old_password: Seq<char>,
    pub password: Seq<char>,
    pub confirmation: Seq<char>,
}

impl View for UpdatePasswordDto {
    type V = UpdatePasswordDtoView;

    open spec fn view(&self) -> UpdatePasswordDtoView {
        UpdatePasswordDtoView {
            old_password: self.old_password@,
            password: self.password@,
            confirmation: self.confirmation@,
        }
    }
}

/// A [`DeleteDto`] over sequences of characters.
pub struct DeleteDtoView {
    pub password: Seq<char>,
}

impl View for DeleteDto {
    type V = DeleteDtoView;

    open spec fn view(&self) -> DeleteDtoView {
        DeleteDtoView { password: self.password@ }
    }
}

/// What the check of a username finds from its length in bytes and the
/// length of the first run of lower-case letters, digits and underscores in
/// it: the name has 3 to 255 bytes, and the run is the whole name.
pub open spec fn username_verdict_of(len: int, run: Option<Option<usize>>) -> Result<
    (),
    ValidationErrorView,
> {
    if len < 3 || len > 255 {
        Err(rejection("min=8 && max=512"@))
    } else if run == Some(Some(len as usize)) {
        Ok(())
    } else {
        Err(rejection("User name not matches!"@))
    }
}

/// What the check of a username finds.
pub open spec fn username_verdict(username: Seq<char>) -> Result<(), ValidationErrorView> {
    username_verdict_of(
        byte_len(username) as int,
        regex_first_match("([a-z0-9_]+)"@, username),
    )
}

/// What the check of a password finds from its length in bytes and from
/// whether it holds a lower-case letter, an upper-case letter and a digit:
/// the password has 8 to 512 bytes and holds one of each.
pub open spec fn password_verdict_of(
    len: int,
    lower: Option<bool>,
    upper: Option<bool>,
    digit: Option<bool>,
) -> Result<(), ValidationErrorView> {
    if len < 8 || len > 512 {
        Err(rejection("min=8 && max=512"@))
    } else if lower == Some(true) && upper == Some(true) && digit == Some(true) {
        Ok(())
    } else {
        Err(rejection("password is to wake!!!"@))
    }
}

/// What the check of a password finds.
pub open spec fn password_verdict(password: Seq<char>) -> Result<(), ValidationErrorView> {
    password_verdict_of(
        byte_len(password) as int,
        regex_matches("([a-z])"@, password),
        regex_matches("([A-Z])"@, password),
        regex_matches("([0-9])"@, password),
    )
}

/// Decides on a username from its length in bytes and the length of the
/// first run of lower-case letters, digits and underscores in it.
pub fn username_checked(len: usize, run: Option<Option<usize>>) -> (verdict: Result<
    (),
    ValidationError,
>)
    ensures
        verdict_view(verdict) == username_verdict_of(len as int, run),
{
    if len < 3 || len > 255 {
        return Err(ValidationError::new("min=8 && max=512"));
    }
    match run {
        Some(Some(matched)) => {
            if matched == len {
                Ok(())
            } else {
                Err(ValidationError::new("User name not matches!"))
            }
        },
        _ => Err(ValidationError::new("User name not matches!")),
    }
}

/// Checks a username: 3 to 255 bytes, all of them lower-case letters,
/// digits or underscores.
pub fn username_validate(username: &str) -> (verdict: Result<(), ValidationError>)
    ensures
        verdict_view(verdict) == username_verdict(username@),
{
    let run = first_match_len("([a-z0-9_]+)", username);
    username_checked(username.as_bytes().len(), run)
}

/// Decides on a password from its length in bytes and from whether it
/// holds a lower-case letter, an upper-case letter and a digit.
pub fn password_checked(
    len: usize,
    lower: Option<bool>,
    upper: Option<bool>,
    digit: Option<bool>,
) -> (verdict: Result<(), ValidationError>)
    ensures
        verdict_view(verdict) == password_verdict_of(len as int, lower, upper, digit),
{
    if len < 8 || len > 512 {
        return Err(ValidationError::new("min=8 && max=512"));
    }
    match (lower, upper, digit) {
        (Some(true), Some(true), Some(true)) => Ok(()),
        _ => Err(ValidationError::new("password is to wake!!!")),
    }
}

/// Checks a password: 8 to 512 bytes, with a lower-case letter, an
/// upper-case letter and a digit among them.
pub fn password_validate(password: &str) -> (verdict: Result<(), ValidationError>)
    ensures
        verdict_view(verdict) == password_verdict(password@),
{
    let lower = pattern_matches("([a-z])", password);
    let upper = pattern_matches("([A-Z])", password);
    let digit = pattern_matches("([0-9])", password);
    password_checked(password.as_bytes().len(), lower, upper, digit)
}

/// What the check of the length of a name finds.
pub open spec fn name_verdict(name: Seq<char>) -> Result<(), ValidationErrorView> {
    length_verdict(name, 2, 255, "min=2 && max=255"@)
}

/// What the check of the length of an email address finds.
pub open spec fn email_length_verdict(email: Seq<char>) -> Result<(), ValidationErrorView> {
    length_verdict(email, 5, 255, "min=2 && max=255"@)
}

/// What the check of the confirmation of a password finds.
pub open spec fn confirmation_verdict(confirmation: Seq<char>, password: Seq<char>) -> Result<
    (),
    ValidationErrorView,
> {
    match_verdict(confirmation, password, "Invalid password confirmation!"@)
}

impl CreateDtoView {
    /// The rejections of the fields of the request, in the order of the fields.
    pub open spec fn errors(self) -> Seq<FieldErrorView> {
        let e = Seq::<FieldErrorView>::empty();
        let e = noted(e, "name"@, name_verdict(self.name));
        let e = noted(e, "username"@, username_verdict(self.username));
        let e = noted(e, "email"@, email_length_verdict(self.email));
        let e = noted(e, "email"@, email_verdict(self.email));
        let e = noted(e, "password"@, password_verdict(self.password));
        noted(e, "confirmation"@, confirmation_verdict(self.confirmation, self.password))
    }
}

impl Validate for CreateDto {
    open spec fn rejections(&self) -> Seq<FieldErrorView> {
        self@.errors()
    }

    fn validate(&self) -> (r: Result<(), ValidationErrors>)
        ensures
            validation_view(r) == validated(self@.errors()),
    {
        let mut record = ValidationErrors::new();
        record.note("name", length_validate(self.name.as_str(), 2, 255, "min=2 && max=255"));
        record.note("username", username_validate(self.username.as_str()));
        record.note("email", length_validate(self.email.as_str(), 5, 255, "min=2 && max=255"));
        record.note("email", email_validate(self.email.as_str()));
        record.note("password", password_validate(self.password.as_str()));
        record.note(
            "confirmation",
            must_match_validate(
                &self.confirmation,
                &self.password,
                "Invalid password confirmation!",
            ),
        );
        finish(record)
    }
}

impl LoginDtoView {
    /// The rejections of the fields of the request, in the order of the fields.
    pub open spec fn errors(self) -> Seq<FieldErrorView> {
        let e = Seq::<FieldErrorView>::empty();
        let e = noted(e, "username"@, username_verdict(self.username));
        noted(e, "password"@, password_verdict(self.password))
    }
}

impl Validate for LoginDto {
    open spec fn rejections(&self) -> Seq<FieldErrorView> {
        self@.errors()
    }

    fn validate(&self) -> (r: Result<(), ValidationErrors>)
        ensures
            validation_view(r) == validated(self@.errors()),
    {
        let mut record = ValidationErrors::new();
        record.note("username", username_validate(self.username.as_str()));
        record.note("password", password_validate(self.password.as_str()));
        finish(record)
    }
}

impl UpdateInformationDtoView {
    /// The rejections of the fields that the request holds, in the order of
    /// the fields.
    pub open spec fn errors(self) -> Seq<FieldErrorView> {
        let e = Seq::<FieldErrorView>::empty();
        let e = noted(e, "name"@, if_present(self.name, |t: Seq<char>| name_verdict(t)));
        let e = noted(
            e,
            "username"@,
            if_present(self.username, |t: Seq<char>| username_verdict(t)),
        );
        let e = noted(e, "email"@, if_present(self.email, |t: Seq<char>| email_length_verdict(t)));
        noted(e, "email"@, if_present(self.email, |t: Seq<char>| email_verdict(t)))
    }

    /// Whether the request holds no field at all.
    pub open spec fn is_empty(self) -> bool {
        self.email is None && self.name is None && self.username is None
    }
}

impl Validate for UpdateInformationDto {
    open spec fn rejections(&self) -> Seq<FieldErrorView> {
        self@.errors()
    }

    fn validate(&self) -> (r: Result<(), ValidationErrors>)
        ensures
            validation_view(r) == validated(self@.errors()),
    {
        let mut record = ValidationErrors::new();
        record.note(
            "name",
            match &self.name {
                Some(name) => length_validate(name.as_str(), 2, 255, "min=2 && max=255"),
                None => Ok(()),
            },
        );
        record.note(
            "username",
            match &self.username {
                Some(username) => username_validate(username.as_str()),
                None => Ok(()),
            },
        );
        record.note(
            "email",
            match &self.email {
                Some(email) => length_validate(email.as_str(), 5, 255, "min=2 && max=255"),
                None => Ok(()),
            },
        );
        record.note(
            "email",
            match &self.email {
                Some(email) => email_validate(email.as_str()),
                None => Ok(()),
            },
        );
        finish(record)
    }
}

impl UpdateInformationDto {
    /// Whether the request holds no field at all.
    pub fn is_empty(&self) -> (empty: bool)
        ensures
            empty == self@.is_empty(),
    {
        self.email.is_none() && self.name.is_none() && self.username.is_none()
    }
}

impl UpdatePasswordDtoView {
    /// The rejections of the fields of the request, in the order of the fields.
    pub open spec fn errors(self) -> Seq<FieldErrorView> {
        let e = Seq::<FieldErrorView>::empty();
        let e = noted(e, "old_password"@, password_verdict(self.old_password));
        let e = noted(e, "password"@, password_verdict(self.password));
        noted(e, "confirmation"@, confirmation_verdict(self.confirmation, self.password))
    }
}

impl Validate for UpdatePasswordDto {
    open spec fn rejections(&self) -> Seq<FieldErrorView> {
        self@.errors()
    }

    fn validate(&self) -> (r: Result<(), ValidationErrors>)
        ensures
            validation_view(r) == validated(self@.errors()),
    {
        let mut record = ValidationErrors::new();
        record.note("old_password", password_validate(self.old_password.as_str()));
        record.note("password", password_validate(self.password.as_str()));
        record.note(
            "confirmation",
            must_match_validate(
                &self.confirmation,
                &self.password,
                "Invalid password confirmation!",
            ),
        );
        finish(record)
    }
}

impl DeleteDtoView {
    /// The rejections of the fields of the request.
    pub open spec fn errors(self) -> Seq<FieldErrorView> {
        noted(Seq::<FieldErrorView>::empty(), "password"@, password_verdict(self.password))
    }
}

impl Validate for DeleteDto {
    open spec fn rejections(&self) -> Seq<FieldErrorView> {
        self@.errors()
    }

    fn validate(&self) -> (r: Result<(), ValidationErrors>)
        ensures
            validation_view(r) == validated(self@.errors()),
    {
        let mut record = ValidationErrors::new();
        record.note("password", password_validate(self.password.as_str()));
        finish(record)
    }
}

} // verus!
