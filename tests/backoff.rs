use backoff_jitter::{
    clamp_draw, jitter_ceiling, Backoff, BackoffBuilder, DEFAULT_INITIAL_NS, DEFAULT_MAX_NS,
    DEFAULT_MULTIPLIER, MULTIPLIER_ONE,
};

#[test]
fn simple() {
    let mut bo = BackoffBuilder::new().build();
    let def = bo.pause();
    assert_eq!(def, 1_000_000_000);
    let val = bo.pause();
    assert!(val > 0 && val <= bo.max_ns);
}

#[test]
fn first_delay_of_default_generator_is_one_second() {
    let mut bo = Backoff::builder().build();
    assert_eq!(bo.pause(), 1_000_000_000);
    let mut bo = BackoffBuilder::default().build();
    assert_eq!(bo.pause_with(12345), 1_000_000_000);
}

#[test]
fn every_delay_stays_within_max() {
    let mut bo = BackoffBuilder::new()
        .initial_ns(100)
        .max_ns(5_000)
        .multiplier(3 * MULTIPLIER_ONE)
        .build();
    assert_eq!(bo.pause(), 100);
    for _ in 0..200 {
        let val = bo.pause();
        assert!(val <= 5_000);
        assert!(val >= 1);
    }
    let mut bo = BackoffBuilder::new().build();
    for _ in 0..50 {
        assert!(bo.pause() <= DEFAULT_MAX_NS);
    }
}

#[test]
fn later_delays_lie_under_grown_ceiling() {
    let mut bo = BackoffBuilder::new().max_ns(u64::MAX).build();
    bo.pause();
    for _ in 0..40 {
        let ceiling = bo.next_ceiling();
        let val = bo.pause();
        assert!(val >= 1);
        assert!(val as u128 <= ceiling as u128 + 1);
        assert!(val <= bo.max_ns);
    }
}

#[test]
fn defaults_are_resolved_once_and_kept() {
    let mut bo = BackoffBuilder::new().build();
    assert_eq!((bo.initial_ns, bo.max_ns, bo.multiplier), (0, 0, 0));
    bo.pause();
    assert_eq!(bo.initial_ns, DEFAULT_INITIAL_NS);
    assert_eq!(bo.max_ns, DEFAULT_MAX_NS);
    assert_eq!(bo.multiplier, DEFAULT_MULTIPLIER);
    bo.pause();
    assert_eq!(bo.initial_ns, 1_000_000_000);
    assert_eq!(bo.max_ns, 30_000_000_000);
    assert_eq!(bo.multiplier, 2_000_000);
}

#[test]
fn set_values_are_not_replaced_by_defaults() {
    let mut bo = BackoffBuilder::new()
        .initial_ns(7)
        .max_ns(9)
        .multiplier(1_500_000)
        .build();
    bo.pause();
    assert_eq!((bo.initial_ns, bo.max_ns, bo.multiplier), (7, 9, 1_500_000));
}

#[test]
fn only_the_first_step_returns_the_initial_delay() {
    let mut bo = BackoffBuilder::new().initial_ns(7).build();
    assert_eq!(bo.pause_with(100), 7);
    assert_eq!(bo.pause_with(100), 101);
    assert_eq!(bo.pause_with(100), 101);
    assert_eq!(bo.pause_with(0), 1);
}

#[test]
fn unit_multiplier_grows_by_at_most_one() {
    let mut bo = BackoffBuilder::new().multiplier(MULTIPLIER_ONE).build();
    assert_eq!(bo.pause(), 1_000_000_000);
    let mut last: u64 = 1_000_000_000;
    for _ in 0..100 {
        assert_eq!(bo.next_ceiling(), last);
        let val = bo.pause();
        assert!(val >= 1 && val <= last + 1);
        last = val;
    }
}

#[test]
fn max_below_initial_leaves_first_delay_unclamped() {
    let mut bo = BackoffBuilder::new()
        .initial_ns(5_000_000_000)
        .max_ns(1_000_000_000)
        .build();
    assert_eq!(bo.pause(), 5_000_000_000);
    let val = bo.pause();
    assert!(val >= 1 && val <= 1_000_000_000);
    let mut bo = BackoffBuilder::new()
        .initial_ns(5_000_000_000)
        .max_ns(1_000_000_000)
        .build();
    assert_eq!(bo.pause_with(0), 5_000_000_000);
    assert_eq!(bo.pause_with(1_999_999_999), 1_000_000_000);
}

#[test]
fn second_delay_grows_from_one_second_not_from_initial() {
    let mut bo = BackoffBuilder::new()
        .initial_ns(2_000_000_000)
        .max_ns(30_000_000_000)
        .multiplier(2 * MULTIPLIER_ONE)
        .build();
    assert_eq!(bo.pause(), 2_000_000_000);
    assert_eq!(bo.next_ceiling(), 2_000_000_000);
    let val = bo.pause();
    assert!(val >= 1 && val <= 2_000_000_001);
}

#[test]
fn second_delay_with_chosen_draw() {
    let mut bo = BackoffBuilder::new()
        .initial_ns(2_000_000_000)
        .max_ns(30_000_000_000)
        .multiplier(2_000_000)
        .build();
    assert_eq!(bo.pause_with(0), 2_000_000_000);
    assert_eq!(bo.pause_with(2_000_000_000), 2_000_000_001);
    assert_eq!(bo.next_ceiling(), 4_000_000_002);
}

#[test]
fn jittered_delays_are_drawn_not_fixed() {
    let mut seen_below_ceiling = false;
    for _ in 0..20 {
        let mut bo = BackoffBuilder::new().build();
        bo.pause();
        let val = bo.pause();
        assert!(val >= 1 && val <= 2_000_000_001);
        if val != 2_000_000_001 {
            seen_below_ceiling = true;
        }
    }
    assert!(seen_below_ceiling);
}

#[test]
fn ceiling_truncates_toward_zero() {
    assert_eq!(jitter_ceiling(3, 1_500_000), 4);
    assert_eq!(jitter_ceiling(1_000_000_000, 2_000_000), 2_000_000_000);
    assert_eq!(jitter_ceiling(7, 999_999), 6);
    assert_eq!(jitter_ceiling(0, 2_000_000), 0);
    assert_eq!(jitter_ceiling(5, 0), 0);
}

#[test]
fn ceiling_saturates_at_largest_value() {
    assert_eq!(jitter_ceiling(u64::MAX, 2_000_000), u64::MAX);
    assert_eq!(jitter_ceiling(u64::MAX, u64::MAX), u64::MAX);
    assert_eq!(jitter_ceiling(u64::MAX, MULTIPLIER_ONE), u64::MAX);
}

#[test]
fn clamp_moves_draw_off_zero_and_caps_it() {
    assert_eq!(clamp_draw(10, 0), 1);
    assert_eq!(clamp_draw(10, 3), 4);
    assert_eq!(clamp_draw(10, 9), 10);
    assert_eq!(clamp_draw(10, 10), 10);
    assert_eq!(clamp_draw(10, u64::MAX), 10);
    assert_eq!(clamp_draw(u64::MAX, u64::MAX), u64::MAX);
}

#[test]
fn largest_settings_do_not_overflow() {
    let mut bo = BackoffBuilder::new()
        .initial_ns(u64::MAX)
        .max_ns(u64::MAX)
        .multiplier(u64::MAX)
        .build();
    assert_eq!(bo.pause(), u64::MAX);
    assert_eq!(bo.pause_with(u64::MAX), u64::MAX);
    assert_eq!(bo.next_ceiling(), u64::MAX);
    let val = bo.pause();
    assert!(val >= 1);
}
