//! The clock controller: the owner of the clock's record and the only way to
//! calibrate, advance, read or stop the clock.

use crate::error::ClockError;
use crate::guard::checked_advance;
use crate::model::{widen, ClockModel};
use crate::state::clock_ctrl;
use vstd::prelude::*;

verus! {

/// A clock that trusts nothing but its own count.
///
/// The controller owns its record. It is calibrated once, by [`setup`], from
/// two samples that the host supplies; from then on [`tick`] adds the fixed
/// interval to the trusted time and the host's clock is never looked at
/// again. Every controller satisfies [`ClockModel::wf`] at all times.
///
/// [`setup`]: ClockController::setup
/// [`tick`]: ClockController::tick
pub struct ClockController {
    state: clock_ctrl,
    initialized: bool,
}

impl View for ClockController {
    type V = ClockModel;

    closed spec fn view(&self) -> ClockModel {
        ClockModel {
            initialized: self.initialized,
            realtime0: self.state.realtime0 as int,
            monotime0: self.state.monotime0 as int,
            now: self.state.now as int,
            interval: self.state.interval as nat,
            done: self.state.done != 0,
        }
    }
}

impl ClockController {
    #[verifier::type_invariant]
    spec fn inv(self) -> bool {
        &&& self@.wf()
        &&& (self.state.done == 0 || self.state.done == 1)
    }

    /// A clock that has not been calibrated: every count is zero and the
    /// stop flag is clear.
    pub fn new() -> (clock: Self)
        ensures
            clock@ == ClockModel::fresh(),
            clock@.wf(),
    {
        ClockController {
            state: clock_ctrl { realtime0: 0, monotime0: 0, now: 0, interval: 0, done: 0 },
            initialized: false,
        }
    }

    /// Calibrates the clock, once.
    ///
    /// A clock that is already calibrated answers `AlreadyInitialized`, and an
    /// interval of zero is answered with `InvalidInterval`; either way nothing
    /// is written. Otherwise the two samples and the interval are recorded,
    /// the trusted time starts at the monotonic sample, and the answer is
    /// `Ok`. Calibration never fails for any other reason.
    pub fn setup(&mut self, realtime_sample: i64, monotime_sample: i64, interval: u64) -> (r:
        Result<(), ClockError>)
        ensures
            r == old(self)@.setup_outcome(interval as nat),
            final(self)@ == old(self)@.setup(
                realtime_sample as int,
                monotime_sample as int,
                interval as nat,
            ),
            final(self)@.wf(),
    {
        proof {
            use_type_invariant(&*self);
            self@.lemma_setup_wf(realtime_sample as int, monotime_sample as int, interval as nat);
        }
        if self.initialized {
            return Err(ClockError::AlreadyInitialized);
        }
        if interval == 0 {
            return Err(ClockError::InvalidInterval);
        }
        // The starting time goes through the same guarded step as every later
        // one; adding nothing cannot overflow.
        match checked_advance(monotime_sample, 0) {
            Ok(start) => {
                let done = self.state.done;
                *self = ClockController {
                    state: clock_ctrl {
                        realtime0: realtime_sample,
                        monotime0: monotime_sample,
                        now: start,
                        interval,
                        done,
                    },
                    initialized: true,
                };
                Ok(())
            },
            Err(e) => Err(e),
        }
    }

    /// Advances the trusted time by one interval and returns the new value.
    ///
    /// Before calibration the answer is `NotInitialized`. If the sum of the
    /// trusted time and the interval does not fit in a signed 64-bit count the
    /// answer is `ClockOverflow`. In both cases the clock is left exactly as
    /// it was. Otherwise the trusted time becomes that sum, which is strictly
    /// greater than the value it replaces, and nothing else changes.
    pub fn tick(&mut self) -> (r: Result<i64, ClockError>)
        ensures
            widen(r) == old(self)@.tick_outcome(),
            final(self)@ == old(self)@.tick(),
            final(self)@.wf(),
            r matches Ok(t) ==> old(self)@.now < t && final(self)@.now == t && final(self)@.ticks()
                == old(self)@.ticks() + 1,
            r is Err ==> final(self)@ == old(self)@,
    {
        proof {
            use_type_invariant(&*self);
            self@.lemma_tick_wf();
        }
        if !self.initialized {
            return Err(ClockError::NotInitialized);
        }
        match checked_advance(self.state.now, self.state.interval) {
            Ok(candidate) => {
                self.state.now = candidate;
                Ok(candidate)
            },
            Err(e) => Err(e),
        }
    }

    /// The last accepted trusted time, or `NotInitialized` before
    /// calibration. Reading changes nothing, so reading again without a tick
    /// in between gives the same answer.
    pub fn now(&self) -> (r: Result<i64, ClockError>)
        ensures
            widen(r) == self@.now_outcome(),
            self@.wf(),
    {
        proof {
            use_type_invariant(self);
        }
        if !self.initialized {
            return Err(ClockError::NotInitialized);
        }
        Ok(self.state.now)
    }

    /// Tells the ticking driver to stop. Only the stop flag is written, and
    /// stopping a stopped clock changes nothing.
    pub fn stop(&mut self)
        ensures
            final(self)@ == old(self)@.stop(),
            final(self)@.wf(),
    {
        proof {
            use_type_invariant(&*self);
        }
        self.state.done = 1;
    }

    /// Whether the driver has been told to stop.
    pub fn is_done(&self) -> (done: bool)
        ensures
            done == self@.done,
    {
        self.state.done != 0
    }

    /// Whether calibration has completed.
    pub fn is_initialized(&self) -> (initialized: bool)
        ensures
            initialized == self@.initialized,
            self@.wf(),
    {
        proof {
            use_type_invariant(self);
        }
        self.initialized
    }

    /// A copy of the clock's record as it stands. The stop flag reads 1 once
    /// the clock has been stopped and 0 before.
    pub fn state(&self) -> (record: clock_ctrl)
        ensures
            record.realtime0 == self@.realtime0,
            record.monotime0 == self@.monotime0,
            record.now == self@.now,
            record.interval == self@.interval,
            record.done == (if self@.done { 1i32 } else { 0i32 }),
            self@.wf(),
    {
        proof {
            use_type_invariant(self);
        }
        self.state
    }
}

/// Calibrates `clock` from the samples and the interval that the host wrote
/// into `ctrl`, and answers with a status: 0 when the clock is now calibrated
/// from them, -1 when calibration was refused and the clock is as it was.
///
/// The record's trusted time and stop flag are not read.
pub fn myst_setup_clock(clock: &mut ClockController, ctrl: &clock_ctrl) -> (status: i32)
    ensures
        status == (if old(clock)@.setup_outcome(ctrl.interval as nat) is Ok {
            0i32
        } else {
            -1i32
        }),
        final(clock)@ == old(clock)@.setup(
            ctrl.realtime0 as int,
            ctrl.monotime0 as int,
            ctrl.interval as nat,
        ),
        final(clock)@.wf(),
{
    match clock.setup(ctrl.realtime0, ctrl.monotime0, ctrl.interval) {
        Ok(()) => 0,
        Err(_) => -1,
    }
}

} // verus!
