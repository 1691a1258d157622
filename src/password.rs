//! Password hashing, verification and the strength rule for new passwords.
use argon2::password_hash::{PasswordHasher, PasswordVerifier};
use vstd::prelude::*;
use vstd::string::*;
use vstd::utf8::encode_utf8;
use crate::chars::{
    is_lowercase_char, is_numeric_char, is_uppercase_char, lowercase_char, numeric_char, uppercase_char,
};
use crate::errors::AppError;
use crate::text::owned;

verus! {

/// Whether `hash` is a well-formed PHC string, as `PasswordHash::new` parses it.
pub uninterp spec fn phc_well_formed(hash: Seq<char>) -> bool;

/// Whether Argon2 with the parameters and salt recorded in `hash` derives the
/// hash's output from `password`, as `PasswordVerifier::verify_password` decides.
pub uninterp spec fn argon2_accepts(password: Seq<char>, hash: Seq<char>) -> bool;

/// Relies on `argon2::password_hash::PasswordHash::new` and
/// `PasswordVerifier::verify_password` of `Argon2::default()`: `None` where
/// the hash string does not parse, else whether the password matches it.
#[verifier::external_body]
fn argon2_verify(password: &str, hash: &str) -> (r: Option<bool>)
    ensures
        r is Some == phc_well_formed(hash@),
        r matches Some(b) ==> b == argon2_accepts(password@, hash@),
{
    match argon2::password_hash::PasswordHash::new(hash) {
        Ok(parsed) => Some(argon2::Argon2::default().verify_password(password.as_bytes(), &parsed).is_ok()),
        Err(_) => None,
    }
}

/// Relies on `PasswordHasher::hash_password` of `Argon2::default()` with a
/// salt from `SaltString::generate(&mut OsRng)`: a PHC string that the same
/// password verifies against. With the default parameters and a generated
/// 16-byte salt, the only input it refuses is a password longer than
/// `argon2::MAX_PWD_LEN` (0xFFFFFFFF) bytes. The salt is random, so the
/// string itself is not known.
#[verifier::external_body]
fn argon2_hash(password: &str) -> (r: Option<String>)
    ensures
        encode_utf8(password@).len() <= 0xFFFF_FFFF ==> r is Some,
        r matches Some(h) ==> phc_well_formed(h@) && argon2_accepts(password@, h@),
{
    let salt = argon2::password_hash::SaltString::generate(&mut argon2::password_hash::rand_core::OsRng);
    argon2::Argon2::default().hash_password(password.as_bytes(), &salt).ok().map(|h| h.to_string())
}

/// The characters that count as special in a password:
/// `!@#$%^&*()_+-=[]{}|;:,.<>?`.
pub open spec fn special_char(c: char) -> bool {
    c == '!' || c == '@' || c == '#' || c == '$' || c == '%' || c == '^' || c == '&' || c == '*'
        || c == '(' || c == ')' || c == '_' || c == '+' || c == '-' || c == '=' || c == '['
        || c == ']' || c == '{' || c == '}' || c == '|' || c == ';' || c == ':' || c == ','
        || c == '.' || c == '<' || c == '>' || c == '?'
}

fn is_special_char(c: char) -> (r: bool)
    ensures
        r == special_char(c),
{
    match c {
        '!' | '@' | '#' | '$' | '%' | '^' | '&' | '*' | '(' | ')' | '_' | '+' | '-' | '=' | '['
        | ']' | '{' | '}' | '|' | ';' | ':' | ',' | '.' | '<' | '>' | '?' => true,
        _ => false,
    }
}

pub open spec fn has_lowercase(s: Seq<char>) -> bool {
    exists|i: int| 0 <= i < s.len() && lowercase_char(#[trigger] s[i])
}

pub open spec fn has_uppercase(s: Seq<char>) -> bool {
    exists|i: int| 0 <= i < s.len() && uppercase_char(#[trigger] s[i])
}

pub open spec fn has_numeric(s: Seq<char>) -> bool {
    exists|i: int| 0 <= i < s.len() && numeric_char(#[trigger] s[i])
}

pub open spec fn has_special(s: Seq<char>) -> bool {
    exists|i: int| 0 <= i < s.len() && special_char(#[trigger] s[i])
}

pub open spec fn count_true(a: bool, b: bool, c: bool, d: bool) -> nat {
    (if a { 1nat } else { 0nat }) + (if b { 1nat } else { 0nat }) + (if c { 1nat } else { 0nat })
        + (if d { 1nat } else { 0nat })
}

/// At least eight bytes, and at least three of: a lowercase letter, an
/// uppercase letter, a digit, a special character.
pub open spec fn strong_password(s: Seq<char>) -> bool {
    encode_utf8(s).len() >= 8 && count_true(has_lowercase(s), has_uppercase(s), has_numeric(s), has_special(s))
        >= 3
}

#[derive(Clone, Copy, Debug, Default)]
pub struct PasswordService;

impl PasswordService {
    pub fn new() -> (r: PasswordService) {
        PasswordService
    }

    /// A fresh salted Argon2 hash of `password`; `Internal` where hashing
    /// fails, which happens only for passwords over 0xFFFFFFFF bytes.
    pub fn hash_password(&self, password: &str) -> (r: Result<String, AppError>)
        ensures
            encode_utf8(password@).len() <= 0xFFFF_FFFF ==> r is Ok,
            r matches Ok(h) ==> phc_well_formed(h@) && argon2_accepts(password@, h@),
            r matches Err(e) ==> e is Internal,
    {
        match argon2_hash(password) {
            Some(h) => Ok(h),
            None => Err(AppError::Internal(owned("Failed to hash password"))),
        }
    }

    /// Whether `password` matches `hash`; `Internal` where `hash` is not a
    /// well-formed PHC string.
    pub fn verify_password(&self, password: &str, hash: &str) -> (r: Result<bool, AppError>)
        ensures
            phc_well_formed(hash@) ==> r == Ok::<bool, AppError>(argon2_accepts(password@, hash@)),
            !phc_well_formed(hash@) ==> (r matches Err(AppError::Internal(m)) && m@ == "Invalid password hash format"@),
    {
        match argon2_verify(password, hash) {
            Some(b) => Ok(b),
            None => Err(AppError::Internal(owned("Invalid password hash format"))),
        }
    }

    pub fn is_strong_password(password: &str) -> (r: bool)
        ensures
            r == strong_password(password@),
    {
        if password.as_bytes().len() < 8 {
            return false;
        }
        let n = password.unicode_len();
        let mut lower = false;
        let mut upper = false;
        let mut digit = false;
        let mut special = false;
        let mut i: usize = 0;
        while i < n
            invariant
                i <= n,
                n == password@.len(),
                lower == exists|j: int| 0 <= j < i && lowercase_char(#[trigger] password@[j]),
                upper == exists|j: int| 0 <= j < i && uppercase_char(#[trigger] password@[j]),
                digit == exists|j: int| 0 <= j < i && numeric_char(#[trigger] password@[j]),
                special == exists|j: int| 0 <= j < i && special_char(#[trigger] password@[j]),
            decreases n - i,
        {
            let c = password.get_char(i);
            if is_lowercase_char(c) {
                lower = true;
            }
            if is_uppercase_char(c) {
                upper = true;
            }
            if is_numeric_char(c) {
                digit = true;
            }
            if is_special_char(c) {
                special = true;
            }
            i = i + 1;
        }
        let met: u8 = (if lower { 1u8 } else { 0u8 }) + (if upper { 1u8 } else { 0u8 }) + (if digit { 1u8 } else { 0u8 })
            + (if special { 1u8 } else { 0u8 });
        met >= 3
    }
}

} // verus!
