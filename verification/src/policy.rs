//! Range policy: the mapping from a distance reading to a blink interval,
//! and the verdict that readings outside the configured bounds force the
//! indicator off.

use vstd::prelude::*;

verus! {

/// Blink-interval milliseconds per centimeter of measured distance: the
/// tunable mapping from distance to cadence, larger distance meaning a
/// slower blink.
pub const MS_PER_CM: u16 = 15;

/// The policy's verdict on one distance reading.
#[derive(Clone, Copy, Debug, PartialEq, Eq, Structural)]
pub enum RangeDecision {
    /// The reading lies within the configured bounds: blink with this
    /// interval in milliseconds.
    InRange(u16),
    /// The reading lies outside the bounds (the sentinel reading 0 always
    /// does, for any positive minimum): force the indicator off.
    OutOfRange,
}

/// Whether a reading lies within the inclusive `[min_distance, max_distance]`
/// bounds.
pub open spec fn in_range(distance: u16, min_distance: u16, max_distance: u16) -> bool {
    min_distance <= distance <= max_distance
}

/// Maps an in-range distance to its blink interval, a fixed number of
/// milliseconds per centimeter.  The multiplication is unchecked by design,
/// so the caller must keep the product representable.
pub fn map_distance_to_delay(distance: u16) -> (ms: u16)
    requires
        distance * MS_PER_CM <= u16::MAX,
    ensures
        ms == distance * MS_PER_CM,
{
    distance * MS_PER_CM
}

/// Applies the range policy to one reading: a reading outside the bounds is
/// `OutOfRange`, every other reading is `InRange` with its mapped blink
/// interval.
pub fn decide(distance: u16, min_distance: u16, max_distance: u16) -> (d: RangeDecision)
    requires
        max_distance * MS_PER_CM <= u16::MAX,
    ensures
        d is OutOfRange <==> !in_range(distance, min_distance, max_distance),
        d matches RangeDecision::InRange(ms) ==> ms == distance * MS_PER_CM,
{
    if distance < min_distance || distance > max_distance {
        RangeDecision::OutOfRange
    } else {
        RangeDecision::InRange(map_distance_to_delay(distance))
    }
}

/// Every failed measurement degrades to the same sentinel reading 0, and the
/// policy treats it as any other reading.  This proof records why that is
/// sound: a zero reading can never satisfy a positive minimum bound, so the
/// sentinel is always judged out of range and the indicator forced off.
pub proof fn lemma_sentinel_reading_out_of_range(min_distance: u16, max_distance: u16)
    requires
        1 <= min_distance,
    ensures
        !in_range(0, min_distance, max_distance),
{
}

} // verus!
