//! Interval readiness check over a monotonic clock, reused by every
//! time-driven policy in the game (fire rate, spawning, buff and
//! pickup expiry, wave progression).
//!
//! The clock is explicit: callers pass the current instant as
//! milliseconds on a monotonic timeline, which keeps the simulation a
//! pure function of (previous state, inputs, elapsed time).

use vstd::prelude::*;

verus! {

/// A reusable interval check: ready once `interval_ms` have elapsed
/// since the last reset.
#[derive(Clone, Copy, Debug, PartialEq, Eq, Structural)]
pub struct Timer {
    /// How long the timer waits between readiness, in milliseconds.
    pub interval_ms: u64,
    /// The instant of the last reset, in milliseconds.
    pub last_reset_ms: u64,
}

impl Timer {
    /// Whether the interval has fully elapsed at instant `now`.
    pub open spec fn is_ready_spec(self, now: int) -> bool {
        now >= self.last_reset_ms + self.interval_ms
    }

    /// Milliseconds elapsed since the last reset at instant `now`
    /// (zero if `now` precedes the reset, which a monotonic clock
    /// never produces).
    pub open spec fn elapsed_spec(self, now: int) -> int {
        if now >= self.last_reset_ms {
            now - self.last_reset_ms
        } else {
            0
        }
    }

    /// A timer that begins its interval at instant `now`.
    pub fn start_now_with_interval(interval_ms: u64, now_ms: u64) -> (r: Timer)
        ensures
            r.interval_ms == interval_ms,
            r.last_reset_ms == now_ms,
    {
        Timer { interval_ms, last_reset_ms: now_ms }
    }

    /// True exactly when the elapsed time has reached the interval.
    pub fn is_ready(&self, now_ms: u64) -> (r: bool)
        ensures
            r == self.is_ready_spec(now_ms as int),
    {
        now_ms >= self.last_reset_ms && now_ms - self.last_reset_ms >= self.interval_ms
    }

    /// Restart the interval from instant `now`.
    pub fn reset(&mut self, now_ms: u64)
        ensures
            final(self).interval_ms == old(self).interval_ms,
            final(self).last_reset_ms == now_ms,
    {
        self.last_reset_ms = now_ms;
    }

    /// Milliseconds since the last reset.
    pub fn elapsed(&self, now_ms: u64) -> (r: u64)
        ensures
            r == self.elapsed_spec(now_ms as int),
    {
        if now_ms >= self.last_reset_ms {
            now_ms - self.last_reset_ms
        } else {
            0
        }
    }
}

/// Law: immediately after a reset a timer with a positive interval is
/// not ready, and it becomes ready exactly once the time elapsed since
/// the reset reaches the interval.
pub proof fn lemma_reset_readiness(t: Timer, reset_at: u64, later: u64)
    requires
        t.interval_ms >= 1,
    ensures
        !(Timer { interval_ms: t.interval_ms, last_reset_ms: reset_at }).is_ready_spec(
            reset_at as int,
        ),
        (Timer { interval_ms: t.interval_ms, last_reset_ms: reset_at }).is_ready_spec(later as int)
            <==> (Timer { interval_ms: t.interval_ms, last_reset_ms: reset_at }).elapsed_spec(
            later as int,
        ) >= t.interval_ms,
{
}

} // verus!
