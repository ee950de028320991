//! The clock's record and the constants for converting its counts.

use vstd::prelude::*;

verus! {

/// Nanoseconds in one second.
pub const NANO_IN_SECOND: i32 = 1_000_000_000;

/// Microseconds in one second.
pub const MICRO_IN_SECOND: i32 = 1_000_000;

/// The clock's record: the calibration baseline, the tick interval, the last
/// accepted trusted time and the stop flag.
///
/// It is plain data with fixed widths and signedness: two signed 64-bit
/// baselines, the signed 64-bit trusted time, the unsigned 64-bit interval
/// and a 32-bit flag, in that order. The record that a controller owns is
/// reached only through that controller; a value of this type in anyone
/// else's hands is a sample or a snapshot.
#[allow(non_camel_case_types)]
#[derive(Clone, Copy, Debug, PartialEq, Eq)]
pub struct clock_ctrl {
    /// Wall-clock time at calibration, in nanoseconds since the epoch.
    pub realtime0: i64,
    /// Monotonic time at calibration, in nanoseconds from an arbitrary origin.
    pub monotime0: i64,
    /// The most recently accepted trusted time, in nanoseconds.
    pub now: i64,
    /// Nanoseconds added by each tick.
    pub interval: u64,
    /// Zero while the clock should keep ticking, nonzero once it should stop.
    pub done: i32,
}

} // verus!
