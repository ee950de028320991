//! The ways in which the clock refuses an operation.

use vstd::prelude::*;

verus! {

/// Why an operation on the clock failed. Every failure is handed to the
/// caller; the clock never retries and never papers over one.
#[derive(Clone, Copy, Debug, PartialEq, Eq, Structural)]
pub enum ClockError {
    /// Calibration was asked for with an interval of zero. Nothing was written.
    InvalidInterval,
    /// Calibration was asked for a second time. The first calibration stands.
    AlreadyInitialized,
    /// The clock was ticked or read before it was calibrated.
    NotInitialized,
    /// The next trusted time would not fit in a signed 64-bit count. The
    /// trusted time keeps its last value; the clock cannot usefully go on.
    ClockOverflow,
}

} // verus!
