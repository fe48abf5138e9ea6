//! Core of an ultrasonic range-to-blink controller.
//!
//! A microcontroller measures the distance to a nearby object with an
//! ultrasonic time-of-flight sensor and blinks an indicator at a cadence
//! proportional to that distance.  This crate holds the timing-sensitive
//! logic of that loop and proves it correct: the echo-wait polling step with
//! its timeout, the tick-to-centimeter and tick-to-millisecond conversions,
//! the range policy that maps a reading to a blink interval or to an
//! out-of-range verdict, the non-blocking blink scheduler, and the plan
//! each control-loop iteration follows.
//!
//! Hardware bring-up and the pin and counter I/O stay outside: the binary
//! glue polls the pins and counters and hands their plain values to these
//! functions.

pub mod control;
pub mod policy;
pub mod scheduler;
pub mod sensor;
