//! Trusted elapsed time for code that cannot believe its host.
//!
//! The clock is calibrated once from two samples that the host supplies, and
//! from then on derives the current time from deltas that it accumulates
//! itself. A value that would overflow the signed 64-bit count is refused,
//! and the trusted time never moves backward.

pub mod controller;
pub mod error;
pub mod guard;
pub mod laws;
pub mod model;
pub mod state;
