//! The checks on the fields of a request and the record of what they found.

use vstd::prelude::*;
use vstd::string::*;
use regex::Regex;
use validator::{ValidateEmail, ValidateLength};
use crate::text::opt_text;

verus! {

/// Why a value was rejected: a code and, for some checks, a message.
#[derive(Debug, PartialEq, Eq)]
pub struct ValidationError {
    pub code: String,
    pub message: Option<String>,
}

/// A [`ValidationError`] over sequences of characters.
pub struct ValidationErrorView {
    pub code: Seq<char>,
    pub message: Option<Seq<char>>,
}

impl View for ValidationError {
    type V = ValidationErrorView;

    open spec fn view(&self) -> ValidationErrorView {
        ValidationErrorView { code: self.code@, message: opt_text(self.message) }
    }
}

impl ValidationError {
    /// A rejection with a code and without a message.
    pub fn new(code: &str) -> (e: Self)
        ensures
            e@ == rejection(code@),
    {
        ValidationError { code: String::from_str(code), message: None }
    }

    /// A rejection with a code and a message.
    pub fn with_message(code: &str, message: &str) -> (e: Self)
        ensures
            e@ == rejection_with(code@, message@),
    {
        ValidationError { code: String::from_str(code), message: Some(String::from_str(message)) }
    }
}

/// A rejection with a code and without a message.
pub open spec fn rejection(code: Seq<char>) -> ValidationErrorView {
    ValidationErrorView { code, message: None }
}

/// A rejection with a code and a message.
pub open spec fn rejection_with(code: Seq<char>, message: Seq<char>) -> ValidationErrorView {
    ValidationErrorView { code, message: Some(message) }
}

/// The rejection of a field of a request.
#[derive(Debug, PartialEq, Eq)]
pub struct FieldError {
    pub field: String,
    pub error: ValidationError,
}

/// A [`FieldError`] over sequences of characters.
pub struct FieldErrorView {
    pub field: Seq<char>,
    pub error: ValidationErrorView,
}

impl View for FieldError {
    type V = FieldErrorView;

    open spec fn view(&self) -> FieldErrorView {
        FieldErrorView { field: self.field@, error: self.error@ }
    }
}

/// The rejections of the fields of a request, in the order of the fields.
#[derive(Debug, PartialEq, Eq)]
pub struct ValidationErrors {
    pub errors: Vec<FieldError>,
}

impl View for ValidationErrors {
    type V = Seq<FieldErrorView>;

    open spec fn view(&self) -> Seq<FieldErrorView> {
        Seq::new(self.errors@.len(), |i: int| self.errors@[i]@)
    }
}

/// The record after a check on `field` was made: longer by the rejection,
/// if there was one.
pub open spec fn noted(
    errors: Seq<FieldErrorView>,
    field: Seq<char>,
    verdict: Result<(), ValidationErrorView>,
) -> Seq<FieldErrorView> {
    match verdict {
        Ok(()) => errors,
        Err(error) => errors.push(FieldErrorView { field, error }),
    }
}

/// What a client reads for one rejection.
pub open spec fn error_text(error: ValidationErrorView) -> Seq<char> {
    match error.message {
        Some(message) => message,
        None => "Validation error: "@ + error.code,
    }
}

/// The line that a client reads for the rejection of a field.
pub open spec fn error_line(e: FieldErrorView) -> Seq<char> {
    e.field + ": "@ + error_text(e.error)
}

/// What a client reads for the rejections of a request: one line for each.
pub open spec fn described(errors: Seq<FieldErrorView>) -> Seq<char>
    decreases errors.len(),
{
    if errors.len() == 0 {
        Seq::<char>::empty()
    } else if errors.len() == 1 {
        error_line(errors[0])
    } else {
        described(errors.drop_last()) + "\n"@ + error_line(errors.last())
    }
}

/// The view of a verdict.
pub open spec fn verdict_view(verdict: Result<(), ValidationError>) -> Result<
    (),
    ValidationErrorView,
> {
    match verdict {
        Ok(()) => Ok(()),
        Err(e) => Err(e@),
    }
}

impl ValidationErrors {
    /// A record without rejections.
    pub fn new() -> (record: Self)
        ensures
            record@ == Seq::<FieldErrorView>::empty(),
    {
        let record = ValidationErrors { errors: Vec::new() };
        assert(record@ =~= Seq::<FieldErrorView>::empty());
        record
    }

    /// Whether nothing was rejected.
    pub fn is_empty(&self) -> (empty: bool)
        ensures
            empty == (self@.len() == 0),
    {
        self.errors.len() == 0
    }

    /// Records what a check on `field` found.
    pub fn note(&mut self, field: &str, verdict: Result<(), ValidationError>)
        ensures
            final(self)@ == noted(old(self)@, field@, verdict_view(verdict)),
    {
        match verdict {
            Ok(()) => {},
            Err(error) => {
                self.errors.push(FieldError { field: String::from_str(field), error });
                assert(self@ =~= noted(old(self)@, field@, verdict_view(verdict)));
            },
        }
    }

    /// What a client reads for the rejections.
    pub fn describe(&self) -> (text: String)
        ensures
            text@ == described(self@),
    {
        let mut text = String::new();
        let mut i: usize = 0;
        assert(self@.take(0) =~= Seq::<FieldErrorView>::empty());
        while i < self.errors.len()
            invariant
                i <= self.errors.len(),
                text@ == described(self@.take(i as int)),
            decreases self.errors.len() - i,
        {
            let ghost before = text@;
            if i > 0 {
                text.append("\n");
            }
            text.append(self.errors[i].field.as_str());
            text.append(": ");
            match &self.errors[i].error.message {
                Some(message) => {
                    text.append(message.as_str());
                },
                None => {
                    text.append("Validation error: ");
                    text.append(self.errors[i].error.code.as_str());
                },
            }
            proof {
                let upto = self@.take(i as int + 1);
                assert(upto.drop_last() =~= self@.take(i as int));
                assert(upto.last() == self@[i as int]);
                if i == 0 {
                    assert(text@ =~= error_line(self@[0]));
                } else {
                    assert(text@ =~= before + "\n"@ + error_line(self@[i as int]));
                }
            }
            i += 1;
        }
        assert(self@.take(i as int) =~= self@);
        text
    }
}

/// What validating a request answers for a record of rejections: success
/// where the record is empty, and the record where it is not.
pub open spec fn validated(errors: Seq<FieldErrorView>) -> Result<(), Seq<FieldErrorView>> {
    if errors.len() == 0 {
        Ok(())
    } else {
        Err(errors)
    }
}

/// The view of what validating a request answers.
pub open spec fn validation_view(r: Result<(), ValidationErrors>) -> Result<
    (),
    Seq<FieldErrorView>,
> {
    match r {
        Ok(()) => Ok(()),
        Err(record) => Err(record@),
    }
}

/// The verdict on a field that may be absent: an absent field passes,
/// whatever the check.
pub open spec fn if_present(
    field: Option<Seq<char>>,
    check: spec_fn(Seq<char>) -> Result<(), ValidationErrorView>,
) -> Result<(), ValidationErrorView> {
    match field {
        Some(text) => check(text),
        None => Ok(()),
    }
}

/// A request whose fields are checked before it is served.
pub trait Validate: Sized {
    /// The rejections of the fields of the request, in the order of the fields.
    spec fn rejections(&self) -> Seq<FieldErrorView>;

    /// Checks every field of the request: succeeds where none is rejected,
    /// and answers with the record of the rejections where one is.
    fn validate(&self) -> (r: Result<(), ValidationErrors>)
        ensures
            validation_view(r) == validated(self.rejections()),
    ;
}

/// Ends a validation: succeeds where nothing was rejected.
pub fn finish(record: ValidationErrors) -> (r: Result<(), ValidationErrors>)
    ensures
        validation_view(r) == validated(record@),
{
    if record.is_empty() {
        Ok(())
    } else {
        Err(record)
    }
}

/// Whether the `regex` crate finds a match of a pattern anywhere in a text;
/// `None` where it refuses the pattern.
pub uninterp spec fn regex_matches(pattern: Seq<char>, text: Seq<char>) -> Option<bool>;

/// The length in bytes of the first match that the `regex` crate finds of a
/// pattern in a text: `Some(None)` where there is no match, and `None` where
/// it refuses the pattern.
pub uninterp spec fn regex_first_match(pattern: Seq<char>, text: Seq<char>) -> Option<
    Option<usize>,
>;

/// Whether the `validator` crate takes a text for an email address.
pub uninterp spec fn is_email(text: Seq<char>) -> bool;

/// Compiles the pattern with `Regex::new` and calls `Regex::is_match`. The
/// answer depends on the pattern and the text alone.
#[verifier::external_body]
pub(crate) fn pattern_matches(pattern: &str, text: &str) -> (found: Option<bool>)
    ensures
        found == regex_matches(pattern@, text@),
{
    match Regex::new(pattern) {
        Ok(re) => Some(re.is_match(text)),
        Err(_) => None,
    }
}

/// Compiles the pattern with `Regex::new`, calls `Regex::captures` and takes
/// the length of the whole match, which is group 0. The answer depends on
/// the pattern and the text alone.
#[verifier::external_body]
pub(crate) fn first_match_len(pattern: &str, text: &str) -> (found: Option<Option<usize>>)
    ensures
        found == regex_first_match(pattern@, text@),
{
    let re = match Regex::new(pattern) {
        Ok(re) => re,
        Err(_) => return None,
    };
    match re.captures(text) {
        Some(groups) => match groups.get(0) {
            Some(whole) => Some(Some(whole.as_str().len())),
            None => Some(None),
        },
        None => Some(None),
    }
}

/// Calls `ValidateEmail::validate_email`. The answer depends on the text alone.
#[verifier::external_body]
fn email_accepted(text: &str) -> (accepted: bool)
    ensures
        accepted == is_email(text@),
{
    ValidateEmail::validate_email(&text)
}

/// Calls `ValidateLength::validate_length` with a minimum and a maximum:
/// the crate counts the characters of the text and accepts a count from
/// the minimum to the maximum, both included.
#[verifier::external_body]
fn length_accepted(text: &str, min: u64, max: u64) -> (accepted: bool)
    ensures
        accepted == (min <= text@.len() <= max),
{
    ValidateLength::validate_length(text, Some(min), Some(max), None)
}

/// What the check on the number of characters finds.
pub open spec fn length_verdict(text: Seq<char>, min: u64, max: u64, message: Seq<char>) -> Result<
    (),
    ValidationErrorView,
> {
    if min <= text.len() <= max {
        Ok(())
    } else {
        Err(rejection_with("length"@, message))
    }
}

/// What the check for an email address finds.
pub open spec fn email_verdict(text: Seq<char>) -> Result<(), ValidationErrorView> {
    if is_email(text) {
        Ok(())
    } else {
        Err(rejection("email"@))
    }
}

/// What the check that a field repeats another finds.
pub open spec fn match_verdict(text: Seq<char>, other: Seq<char>, message: Seq<char>) -> Result<
    (),
    ValidationErrorView,
> {
    if text == other {
        Ok(())
    } else {
        Err(rejection_with("must_match"@, message))
    }
}

/// The length of a text in bytes: the length of its UTF-8 encoding.
pub open spec fn byte_len(text: Seq<char>) -> nat {
    vstd::utf8::encode_utf8(text).len()
}

/// Checks the number of characters of a text.
pub fn length_validate(text: &str, min: u64, max: u64, message: &str) -> (verdict: Result<
    (),
    ValidationError,
>)
    ensures
        verdict_view(verdict) == length_verdict(text@, min, max, message@),
{
    if length_accepted(text, min, max) {
        Ok(())
    } else {
        Err(ValidationError::with_message("length", message))
    }
}

/// Checks that a text is an email address.
pub fn email_validate(text: &str) -> (verdict: Result<(), ValidationError>)
    ensures
        verdict_view(verdict) == email_verdict(text@),
{
    if email_accepted(text) {
        Ok(())
    } else {
        Err(ValidationError::new("email"))
    }
}

/// Checks that a field repeats another.
pub fn must_match_validate(text: &String, other: &String, message: &str) -> (verdict: Result<
    (),
    ValidationError,
>)
    ensures
        verdict_view(verdict) == match_verdict(text@, other@, message@),
{
    if *text == *other {
        Ok(())
    } else {
        Err(ValidationError::with_message("must_match", message))
    }
}

} // verus!
