//! The overflow guard: the one place where an overflow signal becomes an
//! error, and the checked accumulation step that every arithmetic site of
//! the clock goes through.

use crate::error::ClockError;
use vstd::prelude::*;

verus! {

/// Whether `now + interval`, taken as mathematical integers, still fits in a
/// signed 64-bit count.
pub open spec fn fits(now: int, interval: int) -> bool {
    now + interval <= i64::MAX
}

/// Turns the overflow flag of a checked arithmetic step into a result:
/// success when the step did not overflow, `ClockOverflow` when it did.
pub fn check_overflow(overflowed: bool) -> (r: Result<(), ClockError>)
    ensures
        overflowed ==> r == Err::<(), ClockError>(ClockError::ClockOverflow),
        !overflowed ==> r == Ok::<(), ClockError>(()),
{
    if !overflowed {
        return Ok(());
    }
    Err(ClockError::ClockOverflow)
}

/// Adds `interval` to `now` without wrapping or saturating. The sum is
/// returned exactly when it fits in a signed 64-bit count; otherwise the
/// guard reports `ClockOverflow`.
pub fn checked_advance(now: i64, interval: u64) -> (r: Result<i64, ClockError>)
    ensures
        fits(now as int, interval as int) ==> r == Ok::<i64, ClockError>((now + interval) as i64),
        !fits(now as int, interval as int) ==> r == Err::<i64, ClockError>(
            ClockError::ClockOverflow,
        ),
{
    let sum = now.checked_add_unsigned(interval);
    match check_overflow(sum.is_none()) {
        Ok(()) => Ok(sum.unwrap()),
        Err(e) => Err(e),
    }
}

} // verus!
