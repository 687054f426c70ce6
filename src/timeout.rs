use vstd::prelude::*;
use crate::error::EscrowError;

verus! {

/// Seconds in one day.
pub const SECONDS_PER_DAY: i64 = 86400;

/// The refund deadline of a record funded at `funded_at` with a dispute
/// timeout of `days` days, or `None` where it does not fit in an `i64`.
pub open spec fn deadline_of(funded_at: i64, days: u8) -> Option<i64> {
    let d = funded_at + days * 86400;
    if i64::MIN <= d <= i64::MAX {
        Some(d as i64)
    } else {
        None
    }
}

/// The timeout length in seconds.
pub fn timeout_seconds(days: u8) -> (r: i64)
    ensures
        r == days as int * 86400,
{
    (days as i64) * SECONDS_PER_DAY
}

/// The refund deadline `funded_at + days * 86400`, computed with checked
/// addition: an overflow is reported as `InvalidAmount`.
pub fn refund_deadline(funded_at: i64, days: u8) -> (r: Result<i64, EscrowError>)
    ensures
        r == (match deadline_of(funded_at, days) {
            Some(d) => Ok::<i64, EscrowError>(d),
            None => Err(EscrowError::InvalidAmount),
        }),
{
    match funded_at.checked_add(timeout_seconds(days)) {
        Some(d) => Ok(d),
        None => Err(EscrowError::InvalidAmount),
    }
}

/// Whether the funding timeout has elapsed at `now`: the record was funded
/// (`funded_at > 0`) and `now` has reached the deadline.
pub open spec fn timeout_elapsed(funded_at: i64, days: u8, now: i64) -> bool {
    funded_at > 0 && now >= funded_at + days * 86400
}

/// Decides whether the funding timeout has elapsed at `now`. A record that was
/// never funded never times out; a deadline beyond `i64` fails closed.
pub fn funding_timeout_passed(funded_at: i64, days: u8, now: i64) -> (r: Result<bool, EscrowError>)
    ensures
        funded_at <= 0 ==> r == Ok::<bool, EscrowError>(false),
        funded_at > 0 && deadline_of(funded_at, days) is None ==> r == Err::<bool, EscrowError>(EscrowError::InvalidAmount),
        funded_at > 0 && deadline_of(funded_at, days) is Some ==> r == Ok::<bool, EscrowError>(timeout_elapsed(funded_at, days, now)),
{
    if funded_at <= 0 {
        return Ok(false);
    }
    match refund_deadline(funded_at, days) {
        Ok(d) => Ok(now >= d),
        Err(e) => Err(e),
    }
}

} // verus!
