use smog_rs::health::{HealthState, STUCK_THRESHOLD, WARMUP_MS};

#[test]
fn no_verdict_inside_warmup_whatever_the_value() {
    let mut h = HealthState::new(1_000);
    for i in 0..100u64 {
        assert!(!h.check_stuck_condition(1_000 + i * 500, Some(1)));
        assert_eq!(h.consecutive_one, 0);
    }
    assert!(!h.check_stuck_condition(1_000 + WARMUP_MS - 1, Some(1)));
    assert!(!h.check_stuck_condition(1_000 + WARMUP_MS - 1, None));
    assert!(!h.check_stuck_condition(1_000 + WARMUP_MS - 1, Some(300)));
}

#[test]
fn twentieth_saturated_reading_is_stuck() {
    let mut h = HealthState::new(0);
    let now = WARMUP_MS;
    for _ in 0..19 {
        assert!(!h.check_stuck_condition(now, Some(1)));
    }
    assert_eq!(h.consecutive_one, 19);
    assert!(h.check_stuck_condition(now, Some(1)));
    assert_eq!(h.consecutive_one, STUCK_THRESHOLD);
    assert!(h.check_stuck_condition(now + 1_000, Some(1)));
}

#[test]
fn other_value_resets_streak() {
    let mut h = HealthState::new(0);
    let now = WARMUP_MS + 5;
    for _ in 0..19 {
        assert!(!h.check_stuck_condition(now, Some(1)));
    }
    assert!(!h.check_stuck_condition(now, Some(2)));
    assert_eq!(h.consecutive_one, 0);
    for _ in 0..19 {
        assert!(!h.check_stuck_condition(now, Some(1)));
    }
    assert!(!h.check_stuck_condition(now, None));
    assert_eq!(h.consecutive_one, 0);
    for _ in 0..19 {
        assert!(!h.check_stuck_condition(now, Some(1)));
    }
    assert!(h.check_stuck_condition(now, Some(1)));
}

#[test]
fn warmup_resets_streak_even_when_clock_is_behind() {
    let mut h = HealthState { boot_ms: 10_000, consecutive_one: 7 };
    assert!(!h.check_stuck_condition(5_000, Some(1)));
    assert_eq!(h.consecutive_one, 0);
}

#[test]
fn streak_saturates_at_its_largest_value() {
    let mut h = HealthState { boot_ms: 0, consecutive_one: u16::MAX };
    assert!(h.check_stuck_condition(WARMUP_MS, Some(1)));
    assert_eq!(h.consecutive_one, u16::MAX);
}
