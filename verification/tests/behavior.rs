use range_blinker::control::{plan_iteration, IterationPlan, OUT_OF_RANGE_PAUSE_MS, PACING_DELAY_MS};
use range_blinker::policy::{decide, map_distance_to_delay, RangeDecision};
use range_blinker::scheduler::{ticks_to_millis, BlinkScheduler};
use range_blinker::sensor::{poll_for_echo, ticks_to_distance, EchoPoll, ECHO_TIMEOUT_TICKS};

#[test]
fn echo_wait_times_out_exactly_at_threshold() {
    assert_eq!(poll_for_echo(false, 0), EchoPoll::Wait);
    assert_eq!(poll_for_echo(false, 25_000), EchoPoll::Wait);
    assert_eq!(poll_for_echo(false, ECHO_TIMEOUT_TICKS - 1), EchoPoll::Wait);
    assert_eq!(poll_for_echo(false, ECHO_TIMEOUT_TICKS), EchoPoll::TimedOut);
    assert_eq!(poll_for_echo(false, ECHO_TIMEOUT_TICKS + 1), EchoPoll::TimedOut);
    assert_eq!(poll_for_echo(false, u16::MAX), EchoPoll::TimedOut);
}

#[test]
fn echo_start_ends_the_wait_at_any_count() {
    assert_eq!(poll_for_echo(true, 0), EchoPoll::EchoStarted);
    assert_eq!(poll_for_echo(true, ECHO_TIMEOUT_TICKS), EchoPoll::EchoStarted);
    assert_eq!(poll_for_echo(true, u16::MAX), EchoPoll::EchoStarted);
}

#[test]
fn distance_conversion_truncates() {
    assert_eq!(ticks_to_distance(0), 0);
    assert_eq!(ticks_to_distance(14), 0); // 56 microseconds: under one centimeter
    assert_eq!(ticks_to_distance(15), 1); // 60 microseconds
    assert_eq!(ticks_to_distance(725), 50);
    assert_eq!(ticks_to_distance(2_900), 200);
}

#[test]
fn distance_conversion_saturates_to_sentinel() {
    assert_eq!(ticks_to_distance(16_383), 1_129); // widest pulse that still converts
    assert_eq!(ticks_to_distance(16_384), 0); // product saturates: sentinel
    assert_eq!(ticks_to_distance(u16::MAX), 0);
}

#[test]
fn delay_mapping_is_fifteen_ms_per_cm() {
    assert_eq!(map_distance_to_delay(1), 15);
    assert_eq!(map_distance_to_delay(50), 750);
    assert_eq!(map_distance_to_delay(100), 1_500);
    assert_eq!(map_distance_to_delay(4_369), 65_535); // largest mappable distance
}

#[test]
fn decide_honours_inclusive_bounds() {
    assert_eq!(decide(2, 3, 100), RangeDecision::OutOfRange);
    assert_eq!(decide(3, 3, 100), RangeDecision::InRange(45));
    assert_eq!(decide(100, 3, 100), RangeDecision::InRange(1_500));
    assert_eq!(decide(101, 3, 100), RangeDecision::OutOfRange);
}

#[test]
fn sentinel_reading_is_out_of_range() {
    assert_eq!(decide(0, 3, 100), RangeDecision::OutOfRange);
    assert_eq!(
        plan_iteration(0, 3, 100),
        IterationPlan::ForceOff { pause_ms: OUT_OF_RANGE_PAUSE_MS }
    );
}

#[test]
fn millis_conversion_discards_remainders() {
    assert_eq!(ticks_to_millis(0), 0);
    assert_eq!(ticks_to_millis(15), 0); // 960 microseconds
    assert_eq!(ticks_to_millis(16), 1); // 1024 microseconds
    assert_eq!(ticks_to_millis(11_719), 750);
    assert_eq!(ticks_to_millis(u16::MAX), 4_194);
}

#[test]
fn scheduler_toggles_exactly_at_interval() {
    let mut s = BlinkScheduler::new();
    assert!(!s.indicator_on);
    assert_eq!(s.counter_ticks, 0);

    assert!(!s.maybe_toggle(11_718, 750)); // 749 ms elapsed: not yet
    assert!(!s.indicator_on);
    assert_eq!(s.counter_ticks, 11_718);

    assert!(s.maybe_toggle(11_719, 750)); // 750 ms elapsed: toggle
    assert!(s.indicator_on);
    assert_eq!(s.counter_ticks, 0);

    assert!(s.maybe_toggle(20_000, 750)); // well past: toggles back off
    assert!(!s.indicator_on);
    assert_eq!(s.counter_ticks, 0);
}

#[test]
fn scheduler_toggles_at_zero_interval_immediately() {
    let mut s = BlinkScheduler::new();
    assert!(s.maybe_toggle(0, 0));
    assert!(s.indicator_on);
}

#[test]
fn out_of_range_pulse_forces_indicator_off() {
    let cm = ticks_to_distance(2_900); // 11,600 microseconds
    assert_eq!(cm, 200);
    assert_eq!(decide(cm, 3, 100), RangeDecision::OutOfRange);
    assert_eq!(
        plan_iteration(cm, 3, 100),
        IterationPlan::ForceOff { pause_ms: OUT_OF_RANGE_PAUSE_MS }
    );
}

#[test]
fn in_range_pulse_blinks_at_mapped_interval() {
    let cm = ticks_to_distance(725); // 2,900 microseconds
    assert_eq!(cm, 50);
    assert_eq!(decide(cm, 3, 100), RangeDecision::InRange(750));
    assert_eq!(
        plan_iteration(cm, 3, 100),
        IterationPlan::Blink { interval_ms: 750, pause_ms: PACING_DELAY_MS }
    );

    let mut s = BlinkScheduler::new();
    let early_reads: [u16; 4] = [0, 1_000, 5_000, 11_718];
    for t in early_reads {
        assert!(!s.maybe_toggle(t, 750)); // under 750 ms: must not toggle
        assert!(!s.indicator_on);
    }
    assert!(s.maybe_toggle(11_750, 750));
    assert!(s.indicator_on);
}
