use vbus_logger::settling::SettlingDetector;
use vbus_logger::tick_source::{floor_div, TickSource};

#[test]
fn floor_div_rounds_down() {
    assert_eq!(floor_div(25, 10), 2);
    assert_eq!(floor_div(-5, 10), -1);
    assert_eq!(floor_div(-10, 10), -1);
    assert_eq!(floor_div(-11, 10), -2);
    assert_eq!(floor_div(0, 7), 0);
    assert_eq!(floor_div(i64::MIN, 1), i64::MIN);
    assert_eq!(floor_div(i64::MAX, 1), i64::MAX);
}

#[test]
fn tick_fires_once_per_boundary() {
    let mut ticks = TickSource::new(60, 0);
    assert!(!ticks.process(0));
    assert!(!ticks.process(1));
    assert!(!ticks.process(59));
    assert!(ticks.process(60));
    assert!(!ticks.process(60));
    assert!(!ticks.process(61));
    assert!(!ticks.process(119));
    assert!(ticks.process(120));
    assert!(!ticks.process(121));
}

#[test]
fn tick_fires_after_skipped_buckets() {
    let mut ticks = TickSource::new(10, 5);
    assert!(ticks.process(1000));
    assert!(!ticks.process(1001));
    assert!(!ticks.process(1009));
    assert!(ticks.process(1010));
}

#[test]
fn tick_polled_at_irregular_instants() {
    let mut ticks = TickSource::new(60, 30);
    let mut fired = 0;
    for now in [30, 31, 45, 59, 60, 61, 90, 119, 120, 121, 150, 179] {
        if ticks.process(now) {
            fired += 1;
        }
    }
    assert_eq!(fired, 2);
}

#[test]
fn disabled_tick_source_never_fires() {
    let mut zero = TickSource::new(0, 100);
    let mut negative = TickSource::new(-5, 100);
    for now in [0, 1, 100, 1000, -1000, i64::MAX, i64::MIN] {
        assert!(!zero.process(now));
        assert!(!negative.process(now));
    }
}

#[test]
fn tick_on_large_backward_jump_only() {
    let mut ticks = TickSource::new(10, 100);
    // one bucket back: no tick
    assert!(!ticks.process(95));
    // two buckets back: tick, and the scheduler follows the clock
    assert!(ticks.process(85));
    assert!(!ticks.process(89));
    assert!(ticks.process(90));
}

#[test]
fn tick_uses_floor_for_negative_instants() {
    let mut ticks = TickSource::new(10, -5);
    assert!(!ticks.process(-1));
    assert!(ticks.process(0));
    assert!(!ticks.process(9));
}

#[test]
fn tick_at_extreme_instants() {
    let mut ticks = TickSource::new(1, i64::MIN);
    assert!(!ticks.process(i64::MIN));
    assert!(ticks.process(i64::MAX));
    assert!(ticks.process(i64::MIN));
}

#[test]
fn settles_at_three_times_the_population() {
    let mut detector = SettlingDetector::new(0);
    assert!(!detector.is_settled());
    detector.observe(true, 1);
    detector.observe(true, 2);
    detector.observe(true, 3);
    for _ in 0..8 {
        detector.observe(false, 3);
        assert!(!detector.is_settled());
    }
    detector.observe(false, 3);
    assert!(detector.is_settled());
    detector.observe(false, 3);
    assert!(detector.is_settled());
}

#[test]
fn growth_after_settling_unsettles() {
    let mut detector = SettlingDetector::new(1);
    for _ in 0..3 {
        detector.observe(false, 1);
    }
    assert!(detector.is_settled());
    detector.observe(true, 2);
    assert!(!detector.is_settled());
    for _ in 0..5 {
        detector.observe(false, 2);
        assert!(!detector.is_settled());
    }
    detector.observe(false, 2);
    assert!(detector.is_settled());
}

#[test]
fn growth_while_confirming_restarts_the_count() {
    let mut detector = SettlingDetector::new(1);
    detector.observe(false, 1);
    detector.observe(false, 1);
    detector.observe(true, 2);
    for _ in 0..5 {
        detector.observe(false, 2);
        assert!(!detector.is_settled());
    }
    detector.observe(false, 2);
    assert!(detector.is_settled());
}

#[test]
fn detector_starts_from_expected_population() {
    let mut detector = SettlingDetector::new(2);
    for _ in 0..5 {
        detector.observe(false, 2);
        assert!(!detector.is_settled());
    }
    detector.observe(false, 2);
    assert!(detector.is_settled());
}
