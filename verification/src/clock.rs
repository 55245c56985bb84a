//! The wall clock. Times are milliseconds since the Unix epoch, in UTC.

use vstd::prelude::*;

verus! {

/// One minute, in milliseconds.
pub const MINUTE_MILLIS: i64 = 60_000;

/// Whether `chrono::DateTime::from_timestamp_millis` accepts a count of
/// milliseconds, that is, whether the count names a date that chrono can hold.
pub uninterp spec fn is_date(millis: i64) -> bool;

/// Calls `chrono::DateTime::from_timestamp_millis` and tells whether it
/// returned a date. The answer is a function of the count alone.
#[verifier::external_body]
pub(crate) fn names_a_date(millis: i64) -> (r: bool)
    ensures
        r == is_date(millis),
{
    chrono::DateTime::from_timestamp_millis(millis).is_some()
}

/// Reads `chrono::Utc::now` as milliseconds since the epoch. Nothing is
/// promised of the value. The read fails only on a machine whose clock is set
/// before 1970.
#[verifier::external_body]
pub(crate) fn clock_millis() -> i64 {
    chrono::Utc::now().timestamp_millis()
}

/// Whether `end_date` lies at least one minute after `now`.
pub open spec fn a_minute_ahead(end_date: i64, now: i64) -> bool {
    end_date >= now + MINUTE_MILLIS
}

/// Whether `end_date` lies at least one minute after `now`.
pub fn is_a_minute_ahead(end_date: i64, now: i64) -> (r: bool)
    ensures
        r == a_minute_ahead(end_date, now),
{
    if now > i64::MAX - MINUTE_MILLIS {
        false
    } else {
        end_date >= now + MINUTE_MILLIS
    }
}

} // verus!
