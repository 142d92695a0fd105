//! Passwords: the strength rules for new ones, hashing and checking.

use crate::utils::error::{ApiError, BAD_REQUEST};
use vstd::prelude::*;
use vstd::string::*;

verus! {

/// `argon2::password_hash::Error`, handed on unread.
#[verifier::external_type_specification]
#[verifier::external_body]
pub struct ExPasswordHashError(argon2::password_hash::Error);

/// Whether `argon2`'s default instance accepts a password for a hash in PHC
/// string format; `None` where the hash does not parse.
pub uninterp spec fn argon2_accepts(password: Seq<char>, hash: Seq<char>) -> Option<bool>;

/// Whether a regular expression of the `regex` crate matches anywhere in a
/// text; `None` where the pattern does not compile.
pub uninterp spec fn regex_match(pattern: Seq<char>, text: Seq<char>) -> Option<bool>;

/// Whether a character is lowercase, as Unicode defines it (`Lowercase`).
pub uninterp spec fn lowercase(c: char) -> bool;

/// Whether a character is uppercase, as Unicode defines it (`Uppercase`).
pub uninterp spec fn uppercase(c: char) -> bool;

/// Hashes a password with `argon2`'s default instance under a salt from
/// `password_hash::SaltString::generate` and the operating system's random
/// generator. Trusted: the hash that comes out is accepted for the password it
/// was made from. The salt is random, so two calls differ.
#[verifier::external_body]
pub fn hash_password(password: &str) -> (hash: Result<String, argon2::password_hash::Error>)
    ensures
        hash matches Ok(text) ==> argon2_accepts(password@, text@) == Some(true),
{
    let salt = password_hash::SaltString::generate(&mut rand_core::OsRng);
    let hasher = argon2::Argon2::default();
    let hash = argon2::PasswordHasher::hash_password(&hasher, password.as_bytes(), &salt)?;
    Ok(hash.to_string())
}

/// Parses a hash with `argon2::PasswordHash::new` and checks a password
/// against it with `verify_password` of `argon2`'s default instance. Trusted:
/// the result is the named verdict, an error where the hash does not parse.
#[verifier::external_body]
pub fn verify_password(password: &str, hash: &str) -> (accepted: Result<
    bool,
    argon2::password_hash::Error,
>)
    ensures
        accepted matches Ok(verdict) ==> argon2_accepts(password@, hash@) == Some(verdict),
        accepted is Err ==> argon2_accepts(password@, hash@) is None,
{
    let parsed = argon2::PasswordHash::new(hash)?;
    let hasher = argon2::Argon2::default();
    Ok(argon2::PasswordVerifier::verify_password(&hasher, password.as_bytes(), &parsed).is_ok())
}

/// Compiles a pattern with `regex::Regex::new` and asks `is_match` whether it
/// matches anywhere in the text.
#[verifier::external_body]
fn regex_is_match(pattern: &str, text: &str) -> (found: Option<bool>)
    ensures
        found == regex_match(pattern@, text@),
{
    regex::Regex::new(pattern).ok().map(|compiled| compiled.is_match(text))
}

/// Calls `char::is_lowercase`.
#[verifier::external_body]
fn is_lowercase(c: char) -> (yes: bool)
    ensures
        yes == lowercase(c),
{
    c.is_lowercase()
}

/// Calls `char::is_uppercase`.
#[verifier::external_body]
fn is_uppercase(c: char) -> (yes: bool)
    ensures
        yes == uppercase(c),
{
    c.is_uppercase()
}

/// The least number of bytes of a password.
pub const MIN_PASSWORD_LENGTH: usize = 12;

/// Whether `c` is one of the digits `0` to `9`.
pub open spec fn digit(c: char) -> bool {
    '0' <= c <= '9'
}

pub open spec fn has_lowercase(text: Seq<char>) -> bool {
    exists|i: int| 0 <= i < text.len() && lowercase(#[trigger] text[i])
}

pub open spec fn has_uppercase(text: Seq<char>) -> bool {
    exists|i: int| 0 <= i < text.len() && uppercase(#[trigger] text[i])
}

pub open spec fn has_digit(text: Seq<char>) -> bool {
    exists|i: int| 0 <= i < text.len() && digit(#[trigger] text[i])
}

/// Whether the text holds a character that is no word character: the pattern
/// `\W` matches somewhere in it.
pub open spec fn has_special_char(text: Seq<char>) -> bool {
    regex_match("\\W"@, text) == Some(true)
}

/// The first rule that a password breaks, as the message that says so; `None`
/// for a strong password. The rules, in order: at least twelve bytes in
/// UTF-8, a lowercase letter, an uppercase letter, a digit, a special
/// character.
pub open spec fn weakness(password: Seq<char>) -> Option<Seq<char>> {
    if vstd::utf8::encode_utf8(password).len() < MIN_PASSWORD_LENGTH {
        Some("Password is too short"@)
    } else if !has_lowercase(password) {
        Some("Password must contain at least one lowercase letter"@)
    } else if !has_uppercase(password) {
        Some("Password must contain at least one uppercase letter"@)
    } else if !has_digit(password) {
        Some("Password must contain at least one digit"@)
    } else if !has_special_char(password) {
        Some("Password must contain at least one special character"@)
    } else {
        None
    }
}

/// A refusal of a password with the message `message`.
fn refusal(message: &str) -> (error: ApiError)
    ensures
        error.status == BAD_REQUEST,
        error.message@ == message@,
{
    ApiError { status: BAD_REQUEST, message: message.to_owned() }
}

pub fn check_min_length(password: &str, min_length: usize) -> (checked: Result<bool, ApiError>)
    ensures
        checked is Ok <==> password.spec_bytes().len() >= min_length,
        checked matches Ok(passed) ==> passed,
        checked matches Err(error) ==> error.status == BAD_REQUEST && error.message@
            == "Password is too short"@,
{
    if password.as_bytes().len() >= min_length {
        return Ok(true);
    }
    Err(refusal("Password is too short"))
}

pub fn check_lowercase(password: &str) -> (checked: Result<bool, ApiError>)
    ensures
        checked is Ok <==> has_lowercase(password@),
        checked matches Ok(passed) ==> passed,
        checked matches Err(error) ==> error.status == BAD_REQUEST && error.message@
            == "Password must contain at least one lowercase letter"@,
{
    let n = password.unicode_len();
    let mut i: usize = 0;
    while i < n
        invariant
            n == password@.len(),
            i <= n,
            forall|k: int| 0 <= k < i ==> !lowercase(#[trigger] password@[k]),
        decreases n - i,
    {
        if is_lowercase(password.get_char(i)) {
            return Ok(true);
        }
        i += 1;
    }
    Err(refusal("Password must contain at least one lowercase letter"))
}

pub fn check_uppercase(password: &str) -> (checked: Result<bool, ApiError>)
    ensures
        checked is Ok <==> has_uppercase(password@),
        checked matches Ok(passed) ==> passed,
        checked matches Err(error) ==> error.status == BAD_REQUEST && error.message@
            == "Password must contain at least one uppercase letter"@,
{
    let n = password.unicode_len();
    let mut i: usize = 0;
    while i < n
        invariant
            n == password@.len(),
            i <= n,
            forall|k: int| 0 <= k < i ==> !uppercase(#[trigger] password@[k]),
        decreases n - i,
    {
        if is_uppercase(password.get_char(i)) {
            return Ok(true);
        }
        i += 1;
    }
    Err(refusal("Password must contain at least one uppercase letter"))
}

pub fn check_digit(password: &str) -> (checked: Result<bool, ApiError>)
    ensures
        checked is Ok <==> has_digit(password@),
        checked matches Ok(passed) ==> passed,
        checked matches Err(error) ==> error.status == BAD_REQUEST && error.message@
            == "Password must contain at least one digit"@,
{
    let n = password.unicode_len();
    let mut i: usize = 0;
    while i < n
        invariant
            n == password@.len(),
            i <= n,
            forall|k: int| 0 <= k < i ==> !digit(#[trigger] password@[k]),
        decreases n - i,
    {
        let c = password.get_char(i);
        if '0' <= c && c <= '9' {
            return Ok(true);
        }
        i += 1;
    }
    Err(refusal("Password must contain at least one digit"))
}

pub fn check_special_char(password: &str) -> (checked: Result<bool, ApiError>)
    ensures
        checked is Ok <==> has_special_char(password@),
        checked matches Ok(passed) ==> passed,
        checked matches Err(error) ==> error.status == BAD_REQUEST && error.message@
            == "Password must contain at least one special character"@,
{
    match regex_is_match("\\W", password) {
        Some(true) => Ok(true),
        _ => Err(refusal("Password must contain at least one special character")),
    }
}

/// Whether a password is strong enough for a new account: `Ok(true)` if it
/// keeps every rule, else the refusal for the first rule it breaks.
pub fn is_password_strong(password: &str) -> (checked: Result<bool, ApiError>)
    ensures
        checked is Ok <==> weakness(password@) is None,
        checked matches Ok(passed) ==> passed,
        checked matches Err(error) ==> error.status == BAD_REQUEST && weakness(password@) == Some(
            error.message@,
        ),
{
    check_min_length(password, MIN_PASSWORD_LENGTH)?;
    check_lowercase(password)?;
    check_uppercase(password)?;
    check_digit(password)?;
    check_special_char(password)?;
    Ok(true)
}

} // verus!
