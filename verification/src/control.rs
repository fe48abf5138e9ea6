//! Control-loop planning: what one iteration must do once a fresh distance
//! reading is in hand.  The loop itself — triggering a measurement, driving
//! the indicator pin, sleeping — is hardware work for the surrounding glue;
//! the decision is made here.

use vstd::prelude::*;
use crate::policy::{decide, in_range, RangeDecision, MS_PER_CM};

verus! {

/// Pause after an out-of-range reading, in milliseconds: the coarse cadence
/// at which measurement is retried while nothing valid is in view.
pub const OUT_OF_RANGE_PAUSE_MS: u16 = 1000;

/// Pause between in-range iterations, in milliseconds: paces the loop
/// finely enough that the blink scheduler is consulted well within any
/// reachable interval.
pub const PACING_DELAY_MS: u16 = 10;

/// What one control-loop iteration must do after taking a reading.
#[derive(Clone, Copy, Debug, PartialEq, Eq, Structural)]
pub enum IterationPlan {
    /// Force the indicator off and pause coarsely before the next
    /// measurement; blink scheduling is skipped for this cycle.
    ForceOff { pause_ms: u16 },
    /// Run the blink scheduler with this interval, then pause briefly.
    Blink { interval_ms: u16, pause_ms: u16 },
}

/// Plans one iteration from a fresh reading and the configured bounds: an
/// out-of-range reading (the sentinel 0 included) forces the indicator off
/// with the coarse pause, an in-range reading blinks at its mapped interval
/// with the fine pacing delay.
pub fn plan_iteration(distance: u16, min_distance: u16, max_distance: u16) -> (plan: IterationPlan)
    requires
        max_distance * MS_PER_CM <= u16::MAX,
    ensures
        !in_range(distance, min_distance, max_distance) ==> plan == (IterationPlan::ForceOff {
            pause_ms: OUT_OF_RANGE_PAUSE_MS,
        }),
        in_range(distance, min_distance, max_distance) ==> plan == (IterationPlan::Blink {
            interval_ms: (distance * MS_PER_CM) as u16,
            pause_ms: PACING_DELAY_MS,
        }),
{
    match decide(distance, min_distance, max_distance) {
        RangeDecision::OutOfRange => IterationPlan::ForceOff { pause_ms: OUT_OF_RANGE_PAUSE_MS },
        RangeDecision::InRange(interval_ms) => IterationPlan::Blink {
            interval_ms,
            pause_ms: PACING_DELAY_MS,
        },
    }
}

} // verus!
