//! Blink scheduler: decides, from a free-running counter and without
//! blocking, when an elapsed-time threshold has passed, toggling the
//! indicator and restarting the interval by resetting the counter.

use vstd::prelude::*;

verus! {

/// Tick period of the scheduling counter in microseconds, fixed by its
/// prescaler.
pub const SCHED_TICK_MICROS: u32 = 64;

/// The whole milliseconds a scheduling-counter value stands for; the
/// sub-millisecond remainder is discarded on every conversion, not
/// accumulated.
pub open spec fn millis_of_ticks(ticks: u16) -> int {
    (ticks * SCHED_TICK_MICROS) / 1000
}

/// Converts a scheduling-counter reading to elapsed whole milliseconds.
pub fn ticks_to_millis(ticks: u16) -> (ms: u32)
    ensures
        ms == millis_of_ticks(ticks),
{
    (ticks as u32 * SCHED_TICK_MICROS) / 1000
}

/// The scheduler's view of its hardware: the indicator's level and the
/// free-running counter that accumulates time since the last toggle.  The
/// counter itself is the elapsed-time baseline — it is reset to zero on
/// every toggle, and no separate last-toggle timestamp exists.
#[derive(Clone, Copy, Debug, PartialEq, Eq, Structural)]
pub struct BlinkScheduler {
    /// Whether the indicator is currently lit.
    pub indicator_on: bool,
    /// The scheduling counter as of the most recent poll, in ticks.  The
    /// hardware advances it between polls, so each scheduling step takes a
    /// fresh reading.
    pub counter_ticks: u16,
}

impl BlinkScheduler {
    /// A scheduler whose indicator is dark and whose counter starts at zero.
    pub fn new() -> (s: Self)
        ensures
            !s.indicator_on,
            s.counter_ticks == 0,
    {
        BlinkScheduler { indicator_on: false, counter_ticks: 0 }
    }

    /// One non-blocking scheduling step, given a fresh reading of the
    /// free-running counter.  The indicator toggles exactly when the elapsed
    /// milliseconds have reached `interval_ms`; a toggle resets the counter
    /// to zero so the next interval starts cleanly, and otherwise the
    /// counter keeps running.
    pub fn maybe_toggle(&mut self, now_ticks: u16, interval_ms: u16) -> (toggled: bool)
        ensures
            toggled <==> millis_of_ticks(now_ticks) >= interval_ms,
            toggled ==> final(self).indicator_on == !old(self).indicator_on,
            toggled ==> final(self).counter_ticks == 0,
            !toggled ==> final(self).indicator_on == old(self).indicator_on,
            !toggled ==> final(self).counter_ticks == now_ticks,
    {
        let elapsed_ms: u32 = ticks_to_millis(now_ticks);
        if elapsed_ms >= interval_ms as u32 {
            self.indicator_on = !self.indicator_on;
            self.counter_ticks = 0;
            true
        } else {
            self.counter_ticks = now_ticks;
            false
        }
    }
}

} // verus!
