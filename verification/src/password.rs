//! Passwords: the rule that a new password must meet, and hashing.

use crate::error::AppError;
use crate::validation::verdict;
use vstd::prelude::*;

verus! {

/// The work factor of the password hash.
pub const HASH_COST: u32 = 12;

/// Whether `fancy_regex` finds a match of `pattern` anywhere in `text`;
/// `None` where it cannot compile the pattern or gives the search up.
pub uninterp spec fn pattern_found(pattern: Seq<char>, text: Seq<char>) -> Option<bool>;

/// Whether `bcrypt::verify` takes `password` for the password behind `hash`;
/// `None` where it cannot read the hash.
pub uninterp spec fn bcrypt_verdict(password: Seq<char>, hash: Seq<char>) -> Option<bool>;

/// Compiles `pattern` with `fancy_regex::Regex::new` and searches `text`
/// with `Regex::is_match`. The answer is a function of the two texts.
#[verifier::external_body]
fn find_pattern(pattern: &str, text: &str) -> (r: Option<bool>)
    ensures
        r == pattern_found(pattern@, text@),
{
    match fancy_regex::Regex::new(pattern) {
        Ok(regex) => regex.is_match(text).ok(),
        Err(_) => None,
    }
}

/// Calls `bcrypt::verify`. The answer is a function of the password and the
/// hash.
#[verifier::external_body]
pub(crate) fn verify_password(password: &str, hash: &str) -> (r: Option<bool>)
    ensures
        r == bcrypt_verdict(password@, hash@),
{
    bcrypt::verify(password, hash).ok()
}

/// Calls `bcrypt::hash`, which salts the password at random: nothing is
/// promised of the hash, and `None` stands for a failure.
#[verifier::external_body]
pub(crate) fn hash_password(password: &str, cost: u32) -> Option<String> {
    bcrypt::hash(password, cost).ok()
}

/// A password is accepted when each of the five searches found something:
/// a lower-case letter, an upper-case letter, a digit, a character that is
/// neither, and a run of six characters.
pub open spec fn password_accepted(
    lower: Option<bool>,
    upper: Option<bool>,
    digit: Option<bool>,
    special: Option<bool>,
    long: Option<bool>,
) -> bool {
    lower == Some(true) && upper == Some(true) && digit == Some(true) && special == Some(true)
        && long == Some(true)
}

/// Judges a password by the outcome of the five searches.
pub fn judge_password(
    lower: Option<bool>,
    upper: Option<bool>,
    digit: Option<bool>,
    special: Option<bool>,
    long: Option<bool>,
) -> (r: Result<(), AppError>)
    ensures
        r == verdict(password_accepted(lower, upper, digit, special, long)),
{
    let found = |outcome: Option<bool>| -> (b: bool)
        ensures
            b == (outcome == Some(true)),
        {
            match outcome {
                Some(yes) => yes,
                None => false,
            }
        };
    if found(lower) && found(upper) && found(digit) && found(special) && found(long) {
        Ok(())
    } else {
        Err(AppError::InvalidRequest)
    }
}

/// The password rule on a text: the five searches, each for its pattern.
pub open spec fn password_valid(value: Seq<char>) -> bool {
    password_accepted(
        pattern_found("[a-z]"@, value),
        pattern_found("[A-Z]"@, value),
        pattern_found("\\d"@, value),
        pattern_found("[^\\da-zA-Z]"@, value),
        pattern_found(".{6,}"@, value),
    )
}

/// Checks a new password: it must hold a lower-case letter, an upper-case
/// letter, a digit and a character that is neither, and be at least six
/// characters long.
pub fn validate_password(value: &str) -> (r: Result<(), AppError>)
    ensures
        r == verdict(password_valid(value@)),
{
    let lower = find_pattern("[a-z]", value);
    let upper = find_pattern("[A-Z]", value);
    let digit = find_pattern("\\d", value);
    let special = find_pattern("[^\\da-zA-Z]", value);
    let long = find_pattern(".{6,}", value);
    judge_password(lower, upper, digit, special, long)
}

} // verus!
