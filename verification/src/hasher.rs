//! The credential hasher: salted, memory-hard digests of passwords, and
//! their verification.

use vstd::prelude::*;
use argon2::password_hash::rand_core::OsRng;
use argon2::password_hash::{PasswordHash, PasswordHasher, SaltString};
use argon2::Argon2;
use crate::error::{AppError, AppErrorView};
use crate::text::opt_text;

verus! {

/// The PHC string that Argon2id with its default parameters derives from the
/// bytes of a password and a salt in unpadded Base64; `None` where it
/// refuses the pair.
pub uninterp spec fn argon2_digest(password: Seq<u8>, salt: Seq<char>) -> Option<Seq<char>>;

/// Whether a PHC string accepts the bytes of a password: `Some(true)` where
/// recomputing the digest with the string's own parameters and salt gives
/// the string's output, `Some(false)` where it does not, `None` where the
/// text is no PHC string.
pub uninterp spec fn argon2_verdict(password: Seq<u8>, digest: Seq<char>) -> Option<bool>;

/// Whether `c` belongs to the alphabet of Base64.
pub open spec fn is_base64_char(c: char) -> bool {
    ||| 'a' <= c <= 'z'
    ||| 'A' <= c <= 'Z'
    ||| '0' <= c <= '9'
    ||| c == '+'
    ||| c == '/'
}

/// The shape of a generated salt: the unpadded Base64 text of sixteen
/// bytes. That is 22 characters of the alphabet; the last one holds the last
/// two bits of the bytes above four zero bits, which leaves `A`, `Q`, `g`
/// and `w` for it.
pub open spec fn is_salt_text(salt: Seq<char>) -> bool {
    &&& salt.len() == 22
    &&& forall|i: int| 0 <= i < salt.len() ==> is_base64_char(#[trigger] salt[i])
    &&& (salt[21] == 'A' || salt[21] == 'Q' || salt[21] == 'g' || salt[21] == 'w')
}

/// The greatest number of bytes of a password that Argon2 takes.
pub const MAX_PASSWORD_BYTES: u64 = 0xFFFF_FFFF;

/// Calls `SaltString::generate` with the operating system's random number
/// generator. Every outcome is the unpadded Base64 text of sixteen bytes;
/// which bytes is left open.
#[verifier::external_body]
fn fresh_salt() -> (salt: String)
    ensures
        is_salt_text(salt@),
{
    SaltString::generate(&mut OsRng).as_str().to_string()
}

/// Calls `Argon2::default().hash_password` with the salt parsed by
/// `SaltString::from_b64`, and renders the result as a PHC string. The text
/// depends on the password and the salt alone, and it is the text that
/// verification accepts for the same password: the digest is recomputed
/// there from the parameters and the salt that the text records. The crate
/// refuses a password of more than `0xFFFFFFFF` bytes and a salt that does
/// not parse or decodes to fewer than eight bytes; the Base64 text of
/// sixteen bytes parses and decodes, so with it a password within the limit
/// is never refused.
#[verifier::external_body]
fn argon2_hash(password: &[u8], salt: &str) -> (digest: Option<String>)
    ensures
        opt_text(digest) == argon2_digest(password@, salt@),
        digest matches Some(text) ==> argon2_verdict(password@, text@) == Some(true),
        is_salt_text(salt@) && password@.len() <= MAX_PASSWORD_BYTES ==> digest is Some,
{
    let salt = match SaltString::from_b64(salt) {
        Ok(salt) => salt,
        Err(_) => return None,
    };
    match Argon2::default().hash_password(password, &salt) {
        Ok(hash) => Some(hash.to_string()),
        Err(_) => None,
    }
}

/// Calls `PasswordHash::new` and, where the text parses,
/// `PasswordHash::verify_password` with Argon2. The answer depends on the
/// password and the text alone.
#[verifier::external_body]
fn argon2_verify(password: &[u8], digest: &str) -> (verdict: Option<bool>)
    ensures
        verdict == argon2_verdict(password@, digest@),
{
    match PasswordHash::new(digest) {
        Ok(parsed) => Some(parsed.verify_password(&[&Argon2::default()], password).is_ok()),
        Err(_) => None,
    }
}

/// Generates a salt for one digest.
pub fn new_salt() -> (salt: String)
    ensures
        is_salt_text(salt@),
{
    fresh_salt()
}

/// What checking a password against a stored digest found.
#[derive(Clone, Copy, Debug, PartialEq, Eq, Structural)]
pub enum PasswordCheck {
    /// The digest was derived from this password.
    Match,
    /// The digest was derived from another password.
    Mismatch,
    /// The stored text is no digest.
    Malformed,
}

/// The bytes that are hashed for a password: its UTF-8 encoding.
pub open spec fn password_bytes(password: Seq<char>) -> Seq<u8> {
    vstd::utf8::encode_utf8(password)
}

/// What the verdict of the hasher means.
pub open spec fn check_of(verdict: Option<bool>) -> PasswordCheck {
    match verdict {
        Some(true) => PasswordCheck::Match,
        Some(false) => PasswordCheck::Mismatch,
        None => PasswordCheck::Malformed,
    }
}

/// Whether a password is short enough for the hasher.
pub open spec fn is_hashable(password: Seq<char>) -> bool {
    password_bytes(password).len() <= MAX_PASSWORD_BYTES
}

/// Whether `salt` may have been generated for hashing `password`: it has the
/// shape of a generated salt, and with it the hasher derives a digest from
/// the password, unless the password is too long.
pub open spec fn is_salt_for(salt: Seq<char>, password: Seq<char>) -> bool {
    &&& is_salt_text(salt)
    &&& is_hashable(password) ==> hashed(password, salt) is Ok
}

/// What checking `password` against `digest` finds.
pub open spec fn password_check(password: Seq<char>, digest: Seq<char>) -> PasswordCheck {
    check_of(argon2_verdict(password_bytes(password), digest))
}

/// Whether `digest` accepts `password`. A text that is no digest accepts nothing.
pub open spec fn verifies(password: Seq<char>, digest: Seq<char>) -> bool {
    password_check(password, digest) == PasswordCheck::Match
}

/// What hashing `password` with `salt` gives: the digest beside the salt, or
/// an internal error where the hasher refuses.
pub open spec fn hashed(password: Seq<char>, salt: Seq<char>) -> Result<
    (Seq<char>, Seq<char>),
    AppErrorView,
> {
    match argon2_digest(password_bytes(password), salt) {
        Some(digest) => Ok((digest, salt)),
        None => Err(AppErrorView::InternalServer),
    }
}

/// Reads the verdict of the hasher.
pub fn read_verdict(verdict: Option<bool>) -> (check: PasswordCheck)
    ensures
        check == check_of(verdict),
{
    match verdict {
        Some(true) => PasswordCheck::Match,
        Some(false) => PasswordCheck::Mismatch,
        None => PasswordCheck::Malformed,
    }
}

/// Checks `password` against a stored digest.
pub fn check(password: &str, digest: &str) -> (found: PasswordCheck)
    ensures
        found == password_check(password@, digest@),
{
    read_verdict(argon2_verify(password.as_bytes(), digest))
}

/// Whether the stored digest accepts `password`. A stored text that is no
/// digest counts as a failed verification.
pub fn verify(password: &str, digest: &str) -> (accepted: bool)
    ensures
        accepted == verifies(password@, digest@),
{
    match check(password, digest) {
        PasswordCheck::Match => true,
        _ => false,
    }
}

/// Pairs the digest that the hasher derived with the salt it was derived
/// from; where the hasher refused, the outcome is an internal error.
pub fn hash_outcome(digest: Option<String>, salt: String) -> (outcome: Result<
    (String, String),
    AppError,
>)
    ensures
        match digest {
            Some(text) => outcome matches Ok(pair) && pair.0@ == text@ && pair.1@ == salt@,
            None => outcome matches Err(e) && e@ == AppErrorView::InternalServer,
        },
{
    match digest {
        Some(text) => Ok((text, salt)),
        None => Err(AppError::InternalServer),
    }
}

/// Hashes `password` with the given salt. The digest verifies against the
/// password it was derived from.
pub fn hash_with_salt(password: &str, salt: String) -> (outcome: Result<
    (String, String),
    AppError,
>)
    ensures
        pair_view(outcome) == hashed(password@, salt@),
        outcome matches Ok(pair) ==> verifies(password@, pair.0@),
        is_salt_text(salt@) ==> is_salt_for(salt@, password@),
{
    let digest = argon2_hash(password.as_bytes(), salt.as_str());
    hash_outcome(digest, salt)
}

/// Hashes `password` with a salt that is generated for this call. The
/// digest verifies against the password.
pub fn hash(password: &str) -> (outcome: Result<(String, String), AppError>)
    ensures
        exists|salt: Seq<char>|
            is_salt_for(salt, password@) && pair_view(outcome) == #[trigger] hashed(
                password@,
                salt,
            ),
        outcome matches Ok(pair) ==> verifies(password@, pair.0@),
        is_hashable(password@) ==> outcome is Ok,
{
    let salt = new_salt();
    let ghost witness = salt@;
    let outcome = hash_with_salt(password, salt);
    assert(pair_view(outcome) == hashed(password@, witness));
    outcome
}

/// The view of the outcome of hashing.
pub open spec fn pair_view(outcome: Result<(String, String), AppError>) -> Result<
    (Seq<char>, Seq<char>),
    AppErrorView,
> {
    match outcome {
        Ok(pair) => Ok((pair.0@, pair.1@)),
        Err(e) => Err(e@),
    }
}

} // verus!
