//! Echo-pulse timing: the polling step that waits for the echo with a
//! timeout, and the conversion from a raw echo width in counter ticks to a
//! distance in centimeters.

use vstd::prelude::*;

verus! {

/// Ticks of the measurement counter after which an absent echo is abandoned.
pub const ECHO_TIMEOUT_TICKS: u16 = 50_000;

/// Tick period of the measurement counter in microseconds, fixed by its
/// prescaler; every tick-to-time conversion below depends on it.
pub const MEASURE_TICK_MICROS: u16 = 4;

/// Round-trip travel time of sound in microseconds per centimeter of
/// distance to the target.
pub const MICROS_PER_CM: u16 = 58;

/// Width in microseconds of the trigger pulse that commands the sensor to
/// emit a sound burst.  The pulse is a real-time delay for the hardware glue
/// to perform; no logic here depends on it.
pub const TRIGGER_PULSE_MICROS: u16 = 10;

/// The echo pulse's width in microseconds, clamped to the largest
/// representable value instead of wrapping when the pulse is too wide.
pub open spec fn saturated_micros(ticks: u16) -> int {
    if ticks * MEASURE_TICK_MICROS > u16::MAX {
        u16::MAX as int
    } else {
        ticks * MEASURE_TICK_MICROS
    }
}

/// The distance in centimeters that a measured echo width stands for.  A
/// clamped width cannot be trusted, so it yields the sentinel reading 0; any
/// other width is divided, truncating, by the per-centimeter travel time.
pub open spec fn distance_of_ticks(ticks: u16) -> int {
    if saturated_micros(ticks) == u16::MAX {
        0
    } else {
        saturated_micros(ticks) / (MICROS_PER_CM as int)
    }
}

/// Converts a raw echo width to a distance reading.  The multiplication
/// saturates rather than wraps, and a saturated product is reported as the
/// sentinel reading 0, so an overlong pulse can never be mistaken for a
/// valid distance.
pub fn ticks_to_distance(ticks: u16) -> (cm: u16)
    ensures
        cm == distance_of_ticks(ticks),
        ticks * MEASURE_TICK_MICROS < u16::MAX ==> cm == (ticks * MEASURE_TICK_MICROS) / (MICROS_PER_CM as int),
        ticks * MEASURE_TICK_MICROS >= u16::MAX ==> cm == 0,
{
    let micros: u16 = if ticks > u16::MAX / MEASURE_TICK_MICROS {
        u16::MAX
    } else {
        ticks * MEASURE_TICK_MICROS
    };
    if micros == u16::MAX {
        0
    } else {
        micros / MICROS_PER_CM
    }
}

/// One observation of the echo line while waiting for the pulse to start.
#[derive(Clone, Copy, Debug, PartialEq, Eq, Structural)]
pub enum EchoPoll {
    /// The line is still low and the timeout has not elapsed: poll again.
    Wait,
    /// The timeout elapsed with the line still low: no object answered, and
    /// the measurement is abandoned with the sentinel reading 0.
    TimedOut,
    /// The line went high: the echo arrived, and its width can now be timed
    /// from a freshly reset counter.
    EchoStarted,
}

/// Decides one polling step of the wait for the echo pulse.  The wait is
/// abandoned exactly when the counter has reached the timeout with the line
/// still low, and never earlier; a high line always ends the wait.
pub fn poll_for_echo(echo_high: bool, ticks: u16) -> (step: EchoPoll)
    ensures
        echo_high ==> step == EchoPoll::EchoStarted,
        !echo_high && ticks >= ECHO_TIMEOUT_TICKS ==> step == EchoPoll::TimedOut,
        !echo_high && ticks < ECHO_TIMEOUT_TICKS ==> step == EchoPoll::Wait,
{
    if echo_high {
        EchoPoll::EchoStarted
    } else if ticks >= ECHO_TIMEOUT_TICKS {
        EchoPoll::TimedOut
    } else {
        EchoPoll::Wait
    }
}

} // verus!
