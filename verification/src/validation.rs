//! The rules that the fields of a request must meet.

use crate::error::AppError;
use vstd::prelude::*;
use vstd::string::StrSliceExecFns;

verus! {

/// Whether `validator` takes a text for an e-mail address.
pub uninterp spec fn email_accepted(text: Seq<char>) -> bool;

/// Calls `validator::ValidateEmail::validate_email` on the text. The answer
/// is a function of the text alone.
#[verifier::external_body]
fn is_email(text: &str) -> (r: bool)
    ensures
        r == email_accepted(text@),
{
    validator::ValidateEmail::validate_email(&text)
}

/// A request whose fields meet their rules passes; any other is refused
/// with `InvalidRequest`.
pub open spec fn verdict(met: bool) -> Result<(), AppError> {
    if met {
        Ok(())
    } else {
        Err(AppError::InvalidRequest)
    }
}

/// Passes or refuses a request by whether its fields meet their rules.
pub fn judge(met: bool) -> (r: Result<(), AppError>)
    ensures
        r == verdict(met),
{
    if met {
        Ok(())
    } else {
        Err(AppError::InvalidRequest)
    }
}

/// The text has at least `least` and at most `most` characters.
pub open spec fn length_within(text: Seq<char>, least: usize, most: usize) -> bool {
    least <= text.len() <= most
}

/// Whether the text has at least `least` and at most `most` characters.
pub fn has_length_within(text: &str, least: usize, most: usize) -> (r: bool)
    ensures
        r == length_within(text@, least, most),
{
    let count = text.unicode_len();
    least <= count && count <= most
}

/// Checks an e-mail address.
pub fn validate_email(text: &str) -> (r: Result<(), AppError>)
    ensures
        r == verdict(email_accepted(text@)),
{
    judge(is_email(text))
}

} // verus!
