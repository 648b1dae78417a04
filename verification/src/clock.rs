//! The clock of the service.

use vstd::prelude::*;

verus! {

/// A calendar date with a time of day, as the persistence layer stores it;
/// carried through unopened.
#[verifier::external_type_specification]
#[verifier::external_body]
pub struct ExNaiveDateTime(chrono::NaiveDateTime);

/// The largest value that [`current_timestamp`] can return: fewer than
/// `2^31` days of 86 400 seconds.
pub const MAX_TIMESTAMP: i64 = 185_542_587_187_199;

/// The present time by `chrono::Utc::now().timestamp()`, in seconds since the Unix
/// epoch. `Utc::now` refuses a clock set before the epoch, and `timestamp`
/// multiplies a day count held in an `i32` by 86 400 and adds the second of
/// the day; no more is stated.
#[verifier::external_body]
pub(crate) fn current_timestamp() -> (now: i64)
    ensures
        0 <= now <= MAX_TIMESTAMP,
{
    chrono::Utc::now().timestamp()
}

/// The present date and time in UTC, by `chrono::Utc::now().naive_utc()`.
/// Nothing is stated of it.
#[verifier::external_body]
pub(crate) fn current_datetime() -> chrono::NaiveDateTime {
    chrono::Utc::now().naive_utc()
}

} // verus!
