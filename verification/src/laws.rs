//! What holds of every clock, proved about the model that the controller's
//! contracts are written over.

use crate::error::ClockError;
use crate::model::ClockModel;
use vstd::arithmetic::div_mod::lemma_fundamental_div_mod;
use vstd::prelude::*;

verus! {

/// A calibrated clock reads its monotonic baseline plus one interval for
/// every tick it has accepted.
pub proof fn lemma_now_is_baseline_plus_ticks(c: ClockModel)
    requires
        c.wf(),
        c.initialized,
    ensures
        c.now == c.monotime0 + c.ticks() * c.interval,
{
    let d = c.interval as int;
    let elapsed = c.now - c.monotime0;
    lemma_fundamental_div_mod(elapsed, d);
    assert(d * (elapsed / d) == (elapsed / d) * d) by (nonlinear_arith);
    assert(0 <= elapsed / d) by (nonlinear_arith)
        requires
            0 <= elapsed,
            0 < d,
    ;
}

/// Ticks never undo calibration, touch the baselines, the interval or the
/// stop flag, or break the invariant, however many there are and whether or
/// not they are accepted; and the trusted time never moves backward.
pub proof fn lemma_ticks_frame(c: ClockModel, n: nat)
    requires
        c.wf(),
    ensures
        c.ticks_later(n).wf(),
        c.ticks_later(n) == (ClockModel { now: c.ticks_later(n).now, ..c }),
        c.now <= c.ticks_later(n).now,
    decreases n,
{
    if n > 0 {
        let before = c.ticks_later((n - 1) as nat);
        lemma_ticks_frame(c, (n - 1) as nat);
        before.lemma_tick_wf();
    }
}

/// If `n` ticks in a row are all accepted, the trusted time has advanced by
/// exactly `n` intervals.
pub proof fn lemma_accepted_ticks_add_up(c: ClockModel, n: nat)
    requires
        c.wf(),
        forall|k: nat| k < n ==> (#[trigger] c.ticks_later(k)).tick_outcome() is Ok,
    ensures
        c.ticks_later(n).now == c.now + n * c.interval,
        c.ticks_later(n).ticks() == c.ticks() + n,
    decreases n,
{
    if n > 0 {
        let m = (n - 1) as nat;
        let before = c.ticks_later(m);
        lemma_accepted_ticks_add_up(c, m);
        lemma_ticks_frame(c, m);
        before.lemma_tick_wf();
        assert(before.tick_outcome() is Ok);
        assert(m * c.interval + c.interval == n * c.interval) by (nonlinear_arith)
            requires
                n == m + 1,
        ;
    }
}

/// As long as `n` more intervals fit in the signed 64-bit count, `n` ticks in
/// a row are all accepted.
pub proof fn lemma_ticks_accepted_while_they_fit(c: ClockModel, n: nat)
    requires
        c.wf(),
        c.initialized,
        c.now + n * c.interval <= i64::MAX,
    ensures
        forall|k: nat| k < n ==> (#[trigger] c.ticks_later(k)).tick_outcome() is Ok,
        c.ticks_later(n).now == c.now + n * c.interval,
    decreases n,
{
    if n > 0 {
        let m = (n - 1) as nat;
        assert(m * c.interval + c.interval == n * c.interval) by (nonlinear_arith)
            requires
                n == m + 1,
        ;
        lemma_ticks_accepted_while_they_fit(c, m);
        lemma_ticks_frame(c, m);
        assert(c.ticks_later(m).tick_outcome() is Ok);
        lemma_accepted_ticks_add_up(c, n);
    }
}

/// After calibration with a positive interval, `n` accepted ticks leave the
/// clock reading the monotonic sample plus `n` intervals, exactly.
pub proof fn lemma_ticks_after_setup(
    c: ClockModel,
    realtime: int,
    monotime: int,
    interval: nat,
    n: nat,
)
    requires
        c.wf(),
        i64::MIN <= realtime <= i64::MAX,
        i64::MIN <= monotime <= i64::MAX,
        interval <= u64::MAX,
        c.setup_outcome(interval) is Ok,
        forall|k: nat|
            k < n ==> (#[trigger] c.setup(realtime, monotime, interval).ticks_later(
                k,
            )).tick_outcome() is Ok,
    ensures
        c.setup(realtime, monotime, interval).ticks_later(n).now_outcome() == Ok::<
            int,
            ClockError,
        >(monotime + n * interval),
        c.setup(realtime, monotime, interval).ticks_later(n).ticks() == n,
{
    let start = c.setup(realtime, monotime, interval);
    c.lemma_setup_wf(realtime, monotime, interval);
    lemma_accepted_ticks_add_up(start, n);
    lemma_ticks_frame(start, n);
    assert(start.ticks() == 0) by {
        assert(0int / (interval as int) == 0) by (nonlinear_arith)
            requires
                interval > 0,
        ;
    }
}

/// An accepted tick returns a time strictly later than the one it replaces,
/// and that time is what the clock then holds: so of two accepted ticks, the
/// later returns the strictly greater value, and the first accepted tick
/// returns more than the baseline that calibration set.
pub proof fn lemma_tick_strictly_increases(c: ClockModel)
    requires
        c.wf(),
        c.tick_outcome() is Ok,
    ensures
        c.now < c.tick_outcome()->Ok_0,
        c.tick().now == c.tick_outcome()->Ok_0,
        c.tick().tick_outcome() matches Ok(next) ==> c.tick_outcome()->Ok_0 < next,
{
}

/// Once a clock is calibrated, nothing it is asked to do moves the trusted
/// time backward.
pub proof fn lemma_now_never_decreases(c: ClockModel, realtime: int, monotime: int, interval: nat)
    requires
        c.wf(),
        c.initialized,
    ensures
        c.now <= c.tick().now,
        c.now == c.stop().now,
        c.now == c.setup(realtime, monotime, interval).now,
{
}

/// A clock calibrated at the last baseline from which one interval no longer
/// fits refuses its first tick with `ClockOverflow`, and still reads that
/// baseline afterwards.
pub proof fn lemma_overflow_at_the_boundary(
    c: ClockModel,
    realtime: int,
    monotime: int,
    interval: nat,
)
    requires
        c.wf(),
        c.setup_outcome(interval) is Ok,
        interval <= u64::MAX,
        monotime == i64::MAX - interval + 1,
    ensures
        i64::MIN <= monotime <= i64::MAX,
        c.setup(realtime, monotime, interval).tick_outcome() == Err::<int, ClockError>(
            ClockError::ClockOverflow,
        ),
        c.setup(realtime, monotime, interval).tick() == c.setup(realtime, monotime, interval),
        c.setup(realtime, monotime, interval).tick().now_outcome() == Ok::<int, ClockError>(
            monotime,
        ),
{
}

/// What a read answers depends on the state alone, and a stop, a refused
/// tick and a refused calibration all leave it as it was: only an accepted
/// tick or an accepted calibration changes what the clock reads.
pub proof fn lemma_read_is_stable(c: ClockModel, realtime: int, monotime: int, interval: nat)
    ensures
        c.stop().now_outcome() == c.now_outcome(),
        c.tick_outcome() is Err ==> c.tick().now_outcome() == c.now_outcome(),
        c.setup_outcome(interval) is Err ==> c.setup(realtime, monotime, interval).now_outcome()
            == c.now_outcome(),
{
}

/// A tick has exactly three answers: `NotInitialized` before calibration,
/// `ClockOverflow` when the clock is calibrated and one more interval does
/// not fit in the signed 64-bit count, and the sum in every other state.
pub proof fn lemma_tick_answers(c: ClockModel)
    ensures
        c.tick_outcome() == Err::<int, ClockError>(ClockError::NotInitialized) <==> !c.initialized,
        c.tick_outcome() == Err::<int, ClockError>(ClockError::ClockOverflow) <==> c.initialized
            && c.now + c.interval > i64::MAX,
        c.tick_outcome() == Ok::<int, ClockError>(c.now + c.interval) <==> c.initialized && c.now
            + c.interval <= i64::MAX,
{
}

/// Stopping writes the stop flag and nothing else, keeps the invariant, and
/// stopping again changes nothing.
pub proof fn lemma_stop_is_idempotent(c: ClockModel)
    requires
        c.wf(),
    ensures
        c.stop().wf(),
        c.stop().done,
        c.stop() == (ClockModel { done: true, ..c }),
        c.stop().stop() == c.stop(),
{
}

/// Until it is calibrated a clock refuses every tick and every read with
/// `NotInitialized`, and neither a refused tick nor a stop calibrates it.
pub proof fn lemma_uncalibrated_refuses(c: ClockModel)
    requires
        !c.initialized,
    ensures
        c.tick_outcome() == Err::<int, ClockError>(ClockError::NotInitialized),
        c.now_outcome() == Err::<int, ClockError>(ClockError::NotInitialized),
        c.tick() == c,
        !c.stop().initialized,
{
}

/// A clock is calibrated at most once: after an accepted calibration, and
/// after any number of ticks that follow it, a second one is refused with
/// `AlreadyInitialized`, whatever it offers, and leaves the clock exactly as
/// it was.
pub proof fn lemma_setup_only_once(
    c: ClockModel,
    realtime: int,
    monotime: int,
    interval: nat,
    n: nat,
    realtime_again: int,
    monotime_again: int,
    interval_again: nat,
)
    requires
        c.wf(),
        i64::MIN <= realtime <= i64::MAX,
        i64::MIN <= monotime <= i64::MAX,
        interval <= u64::MAX,
        c.setup_outcome(interval) is Ok,
    ensures
        ({
            let running = c.setup(realtime, monotime, interval).ticks_later(n);
            &&& running.setup_outcome(interval_again) == Err::<(), ClockError>(
                ClockError::AlreadyInitialized,
            )
            &&& running.setup(realtime_again, monotime_again, interval_again) == running
            &&& running.realtime0 == realtime
            &&& running.monotime0 == monotime
            &&& running.interval == interval
        }),
{
    c.lemma_setup_wf(realtime, monotime, interval);
    lemma_ticks_frame(c.setup(realtime, monotime, interval), n);
}

/// An interval of zero is refused with `InvalidInterval`, and the clock stays
/// uncalibrated: a tick that follows is refused with `NotInitialized`.
pub proof fn lemma_zero_interval_rejected(c: ClockModel, realtime: int, monotime: int)
    requires
        !c.initialized,
    ensures
        c.setup_outcome(0) == Err::<(), ClockError>(ClockError::InvalidInterval),
        c.setup(realtime, monotime, 0) == c,
        c.setup(realtime, monotime, 0).tick_outcome() == Err::<int, ClockError>(
            ClockError::NotInitialized,
        ),
{
}

} // verus!
