//! The clock as a mathematical state machine.
//!
//! [`ClockModel`] is what a controller looks like in a contract: its fields
//! are unbounded integers and its operations are total functions from state
//! to state. The contracts of the executable controller are written over it,
//! and the laws of the clock are proved about it.

use crate::error::ClockError;
use crate::guard::fits;
use vstd::arithmetic::div_mod::{lemma_fundamental_div_mod, lemma_mod_add_multiples_vanish};
use vstd::prelude::*;

verus! {

/// A trusted time, or the reason why there is none, with the time taken as a
/// mathematical integer. Distinct answers stay distinct.
pub open spec fn widen(answer: Result<i64, ClockError>) -> Result<int, ClockError> {
    match answer {
        Ok(t) => Ok(t as int),
        Err(e) => Err(e),
    }
}

/// The abstract state of a clock.
pub struct ClockModel {
    /// Whether calibration has completed.
    pub initialized: bool,
    /// Wall-clock baseline.
    pub realtime0: int,
    /// Monotonic baseline.
    pub monotime0: int,
    /// The last accepted trusted time.
    pub now: int,
    /// What one tick adds.
    pub interval: nat,
    /// Whether the ticking driver has been told to stop.
    pub done: bool,
}

impl ClockModel {
    /// The state of a clock that has just been constructed: nothing
    /// calibrated, every count zero, not stopped.
    pub open spec fn fresh() -> ClockModel {
        ClockModel {
            initialized: false,
            realtime0: 0,
            monotime0: 0,
            now: 0,
            interval: 0,
            done: false,
        }
    }

    /// The invariant of every state that a clock can be in.
    ///
    /// All counts fit their machine widths. Before calibration they are zero.
    /// After it the interval is positive and the trusted time is the monotonic
    /// baseline plus a whole number of intervals.
    pub open spec fn wf(self) -> bool {
        &&& i64::MIN <= self.realtime0 <= i64::MAX
        &&& i64::MIN <= self.monotime0 <= i64::MAX
        &&& i64::MIN <= self.now <= i64::MAX
        &&& self.interval <= u64::MAX
        &&& if self.initialized {
            &&& self.interval > 0
            &&& self.monotime0 <= self.now
            &&& (self.now - self.monotime0) % (self.interval as int) == 0
        } else {
            &&& self.realtime0 == 0
            &&& self.monotime0 == 0
            &&& self.now == 0
            &&& self.interval == 0
        }
    }

    /// How many ticks have been accepted since calibration.
    pub open spec fn ticks(self) -> nat {
        if self.initialized && self.interval > 0 && self.monotime0 <= self.now {
            ((self.now - self.monotime0) / (self.interval as int)) as nat
        } else {
            0
        }
    }

    /// What calibrating with `interval` answers in this state. A clock is
    /// calibrated at most once, and never with an interval of zero; which
    /// samples are offered plays no part.
    pub open spec fn setup_outcome(self, interval: nat) -> Result<(), ClockError> {
        if self.initialized {
            Err(ClockError::AlreadyInitialized)
        } else if interval == 0 {
            Err(ClockError::InvalidInterval)
        } else {
            Ok(())
        }
    }

    /// The state after calibration has been asked for. On success the
    /// baselines and the interval are recorded and the trusted time starts at
    /// the monotonic baseline; on failure nothing changes.
    pub open spec fn setup(self, realtime: int, monotime: int, interval: nat) -> ClockModel {
        if self.setup_outcome(interval) is Ok {
            ClockModel {
                initialized: true,
                realtime0: realtime,
                monotime0: monotime,
                now: monotime,
                interval,
                done: self.done,
            }
        } else {
            self
        }
    }

    /// What a tick answers in this state: the new trusted time, or why there
    /// is none.
    pub open spec fn tick_outcome(self) -> Result<int, ClockError> {
        if !self.initialized {
            Err(ClockError::NotInitialized)
        } else if !fits(self.now, self.interval as int) {
            Err(ClockError::ClockOverflow)
        } else {
            Ok(self.now + self.interval)
        }
    }

    /// The state after a tick. An accepted tick replaces the trusted time and
    /// touches nothing else; a refused one changes nothing.
    pub open spec fn tick(self) -> ClockModel {
        match self.tick_outcome() {
            Ok(next) => ClockModel { now: next, ..self },
            Err(_) => self,
        }
    }

    /// The state after `n` ticks in a row.
    pub open spec fn ticks_later(self, n: nat) -> ClockModel
        decreases n,
    {
        if n == 0 {
            self
        } else {
            self.ticks_later((n - 1) as nat).tick()
        }
    }

    /// What reading the trusted time answers in this state.
    pub open spec fn now_outcome(self) -> Result<int, ClockError> {
        if self.initialized {
            Ok(self.now)
        } else {
            Err(ClockError::NotInitialized)
        }
    }

    /// The state after the driver has been told to stop.
    pub open spec fn stop(self) -> ClockModel {
        ClockModel { done: true, ..self }
    }

    /// Calibration keeps the invariant, whatever it answers, as long as the
    /// samples and the interval are machine values.
    pub proof fn lemma_setup_wf(self, realtime: int, monotime: int, interval: nat)
        requires
            self.wf(),
            i64::MIN <= realtime <= i64::MAX,
            i64::MIN <= monotime <= i64::MAX,
            interval <= u64::MAX,
        ensures
            self.setup(realtime, monotime, interval).wf(),
            self.setup(realtime, monotime, interval).initialized <==> self.initialized
                || interval > 0,
    {
        if self.setup_outcome(interval) is Ok {
            assert(0int % (interval as int) == 0) by (nonlinear_arith)
                requires
                    interval > 0,
            ;
        }
    }

    /// A tick keeps the invariant, and an accepted one is counted.
    pub proof fn lemma_tick_wf(self)
        requires
            self.wf(),
        ensures
            self.tick().wf(),
            self.tick_outcome() is Ok ==> self.tick().ticks() == self.ticks() + 1,
            self.tick_outcome() is Err ==> self.tick() == self,
    {
        if self.tick_outcome() is Ok {
            let d = self.interval as int;
            let elapsed = self.now - self.monotime0;
            lemma_mod_add_multiples_vanish(elapsed, d);
            lemma_fundamental_div_mod(elapsed, d);
            lemma_fundamental_div_mod(elapsed + d, d);
            assert((elapsed + d) / d == elapsed / d + 1) by (nonlinear_arith)
                requires
                    d > 0,
                    elapsed == d * (elapsed / d),
                    elapsed + d == d * ((elapsed + d) / d),
            ;
        }
    }
}

} // verus!
