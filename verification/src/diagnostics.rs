//! Frame-time diagnostics: running totals of how long drawing and
//! updating take, flushed as averages on a fixed interval.  Reading
//! the clock and printing stay outside; this module only accounts.

use vstd::prelude::*;
use crate::timer::Timer;

verus! {

/// How often the collected averages are flushed.
pub const DIAGNOSTICS_FLUSH_INTERVAL_MS: u64 = 15_000;

/// Which of the two per-frame phases a measurement belongs to.
#[derive(Clone, Copy, Debug, PartialEq, Eq, Structural)]
pub enum PollKind {
    Drawing,
    Update,
}

/// Accumulates per-frame timings and yields averages every flush
/// interval.
#[derive(Clone, Copy, Debug)]
pub struct Diagnostics {
    /// How often the averages are handed out.
    pub flush_timer: Timer,
    /// Total drawing time since the first poll, in milliseconds.
    pub total_draw_ms: u64,
    /// Total update time since the first poll, in milliseconds.
    pub total_update_ms: u64,
    /// When the current measurement started.
    pub current_polling_started_ms: u64,
    /// How many measurements have finished.
    pub times_polled: u32,
}

/// `a + b`, saturating at the largest representable total.
pub open spec fn sat_add64_spec(a: int, b: int) -> int {
    if a + b <= u64::MAX {
        a + b
    } else {
        u64::MAX as int
    }
}

impl Diagnostics {
    pub fn new(now_ms: u64) -> (r: Diagnostics)
        ensures
            r.flush_timer == (Timer {
                interval_ms: DIAGNOSTICS_FLUSH_INTERVAL_MS,
                last_reset_ms: now_ms,
            }),
            r.total_draw_ms == 0,
            r.total_update_ms == 0,
            r.current_polling_started_ms == now_ms,
            r.times_polled == 0,
    {
        Diagnostics {
            flush_timer: Timer::start_now_with_interval(DIAGNOSTICS_FLUSH_INTERVAL_MS, now_ms),
            total_draw_ms: 0,
            total_update_ms: 0,
            current_polling_started_ms: now_ms,
            times_polled: 0,
        }
    }

    /// Begin measuring a phase at instant `now`.
    pub fn start_polling(&mut self, now_ms: u64)
        ensures
            *final(self) == (Diagnostics { current_polling_started_ms: now_ms, ..*old(self) }),
    {
        self.current_polling_started_ms = now_ms;
    }

    /// Finish measuring a phase at instant `now`: add the elapsed time
    /// to the phase's total and, once the flush interval elapses,
    /// restart it and hand out the average draw and update times per
    /// finished measurement.
    pub fn finish_polling(&mut self, kind: PollKind, now_ms: u64) -> (r: Option<(u64, u64)>)
        requires
            old(self).times_polled < u32::MAX,
        ensures
            final(self).times_polled == old(self).times_polled + 1,
            final(self).current_polling_started_ms == old(self).current_polling_started_ms,
            ({
                let elapsed: int = if now_ms >= old(self).current_polling_started_ms {
                    now_ms - old(self).current_polling_started_ms
                } else {
                    0
                };
                &&& final(self).total_draw_ms == (if kind == PollKind::Drawing {
                    sat_add64_spec(old(self).total_draw_ms as int, elapsed)
                } else {
                    old(self).total_draw_ms as int
                })
                &&& final(self).total_update_ms == (if kind == PollKind::Update {
                    sat_add64_spec(old(self).total_update_ms as int, elapsed)
                } else {
                    old(self).total_update_ms as int
                })
            }),
            ({
                let flushed = old(self).flush_timer.is_ready_spec(now_ms as int);
                &&& final(self).flush_timer == (if flushed {
                    Timer { interval_ms: old(self).flush_timer.interval_ms, last_reset_ms: now_ms }
                } else {
                    old(self).flush_timer
                })
                &&& r is Some == flushed
                &&& (r matches Some(avgs) ==> avgs.0 == final(self).total_draw_ms / (
                old(self).times_polled + 1) as u64 && avgs.1 == final(self).total_update_ms / (
                old(self).times_polled + 1) as u64)
            }),
    {
        self.times_polled = self.times_polled + 1;

        let elapsed: u64 = if now_ms >= self.current_polling_started_ms {
            now_ms - self.current_polling_started_ms
        } else {
            0
        };

        match kind {
            PollKind::Drawing => {
                self.total_draw_ms = if self.total_draw_ms <= u64::MAX - elapsed {
                    self.total_draw_ms + elapsed
                } else {
                    u64::MAX
                };
            },
            PollKind::Update => {
                self.total_update_ms = if self.total_update_ms <= u64::MAX - elapsed {
                    self.total_update_ms + elapsed
                } else {
                    u64::MAX
                };
            },
        }

        if self.flush_timer.is_ready(now_ms) {
            self.flush_timer.reset(now_ms);
            let polls: u64 = self.times_polled as u64;
            Some((self.total_draw_ms / polls, self.total_update_ms / polls))
        } else {
            None
        }
    }
}

} // verus!
