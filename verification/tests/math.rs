use radiant_utils::{approach, clamp, lerp, max, min, Angle};
use std::cmp::Ordering;

/// A value that is ordered by its key alone, so that equal keys can be told apart.
#[derive(Debug, Clone, Copy)]
struct Keyed {
    key: i32,
    tag: char,
}

impl PartialEq for Keyed {
    fn eq(&self, other: &Self) -> bool {
        self.key == other.key
    }
}

impl PartialOrd for Keyed {
    fn partial_cmp(&self, other: &Self) -> Option<Ordering> {
        self.key.partial_cmp(&other.key)
    }
}

#[test]
fn clamp_keeps_a_value_inside_the_bounds() {
    assert_eq!(clamp(5, 0, 10), 5);
}

#[test]
fn clamp_raises_a_value_below_the_bounds() {
    assert_eq!(clamp(-1, 0, 10), 0);
}

#[test]
fn clamp_lowers_a_value_above_the_bounds() {
    assert_eq!(clamp(11, 0, 10), 10);
}

#[test]
fn clamp_keeps_the_bounds_themselves() {
    assert_eq!(clamp(0, 0, 10), 0);
    assert_eq!(clamp(10, 0, 10), 10);
    assert_eq!(clamp(7, 7, 7), 7);
}

#[test]
fn clamp_with_crossed_bounds_follows_the_two_tests_in_order() {
    assert_eq!(clamp(5, 10, 0), 10);
    assert_eq!(clamp(-5, 10, 0), 10);
    assert_eq!(clamp(20, 10, 0), 0);
    assert_eq!(clamp(10, 10, 0), 0);
}

#[test]
fn clamp_on_floats() {
    assert_eq!(clamp(0.25, 0.0, 1.0), 0.25);
    assert_eq!(clamp(-0.5, 0.0, 1.0), 0.0);
    assert_eq!(clamp(1.5, 0.0, 1.0), 1.0);
    assert_eq!(clamp(-3.5f32, -2.0, 2.0), -2.0);
}

#[test]
fn clamp_passes_a_value_that_does_not_compare() {
    assert!(clamp(f64::NAN, 0.0, 1.0).is_nan());
    assert_eq!(clamp(0.5, f64::NAN, 1.0), 0.5);
    assert_eq!(clamp(0.5, 0.0, f64::NAN), 0.5);
}

#[test]
fn clamp_on_infinities() {
    assert_eq!(clamp(f64::INFINITY, 0.0, 1.0), 1.0);
    assert_eq!(clamp(f64::NEG_INFINITY, 0.0, 1.0), 0.0);
}

#[test]
fn clamp_twice_is_clamp_once() {
    for v in -20..20 {
        let once = clamp(v, -3, 8);
        assert!(once >= -3 && once <= 8);
        assert_eq!(clamp(once, -3, 8), once);
    }
}

#[test]
fn min_returns_the_smaller() {
    assert_eq!(min(3, 4), 3);
    assert_eq!(min(4, 3), 3);
    assert_eq!(min(-1.5, 2.0), -1.5);
    assert_eq!(min("pear", "apple"), "apple");
}

#[test]
fn max_returns_the_greater() {
    assert_eq!(max(3, 4), 4);
    assert_eq!(max(4, 3), 4);
    assert_eq!(max(-1.5, 2.0), 2.0);
    assert_eq!(max("pear", "apple"), "pear");
}

#[test]
fn min_and_max_of_equal_values_return_the_second() {
    let first = Keyed { key: 1, tag: 'a' };
    let second = Keyed { key: 1, tag: 'b' };
    assert_eq!(min(first, second).tag, 'b');
    assert_eq!(max(first, second).tag, 'b');
    assert_eq!(min(second, first).tag, 'a');
    assert_eq!(max(second, first).tag, 'a');
}

#[test]
fn min_and_max_return_the_second_where_the_values_do_not_compare() {
    assert_eq!(min(f64::NAN, 1.0), 1.0);
    assert!(min(1.0, f64::NAN).is_nan());
    assert_eq!(max(f64::NAN, 1.0), 1.0);
    assert!(max(1.0, f64::NAN).is_nan());
}

#[test]
fn min_is_above_neither_and_max_is_below_neither() {
    for a in -5..5 {
        for b in -5..5 {
            let low = min(a, b);
            let high = max(a, b);
            assert!(low <= a && low <= b);
            assert!(high >= a && high >= b);
            assert!(low == a || low == b);
            assert!(high == a || high == b);
        }
    }
}

#[test]
fn lerp_halfway() {
    assert_eq!(lerp(&0.0, &10.0, 0.5), 5.0);
}

#[test]
fn lerp_at_ratio_zero_returns_the_source() {
    assert_eq!(lerp(&0.0, &10.0, 0.0), 0.0);
    assert_eq!(lerp(&-4.0, &10.0, 0.0), -4.0);
}

#[test]
fn lerp_at_ratio_one_returns_the_target() {
    assert_eq!(lerp(&0.0, &10.0, 1.0), 10.0);
    assert_eq!(lerp(&-4.0, &10.0, 1.0), 10.0);
}

#[test]
fn lerp_extrapolates_past_the_target() {
    assert_eq!(lerp(&0.0, &10.0, 2.0), 20.0);
}

#[test]
fn lerp_extrapolates_before_the_source() {
    assert_eq!(lerp(&0.0, &10.0, -1.0), -10.0);
    assert_eq!(lerp(&2.0, &4.0, -0.5), 1.0);
}

#[test]
fn lerp_follows_the_formula() {
    // 2 * (1 - 0.25) + 4 * 0.25
    assert_eq!(lerp(&2.0, &4.0, 0.25), 2.5);
    // 8 * (1 - 0.75) + (-8) * 0.75
    assert_eq!(lerp(&8.0, &-8.0, 0.75), -4.0);
}

#[test]
fn lerp_in_single_precision() {
    assert_eq!(lerp(&0.0f32, &10.0f32, 0.5f32), 5.0f32);
    assert_eq!(lerp(&1.0f32, &3.0f32, 2.0f32), 5.0f32);
}

#[test]
fn lerp_on_integers() {
    assert_eq!(lerp(&0i32, &10i32, 2i32), 20);
    assert_eq!(lerp(&3i64, &10i64, -2i64), -11);
    assert_eq!(lerp(&3i64, &10i64, 0i64), 3);
    assert_eq!(lerp(&3i64, &10i64, 1i64), 10);
}

#[test]
fn lerp_between_angles() {
    let from = Angle(0.0);
    let to = Angle(2.0);
    assert_eq!(lerp(&from, &to, 0.5), Angle(1.0));
    assert_eq!(lerp(&from, &to, 4.0), Angle(8.0));
}

#[test]
fn lerp_propagates_values_that_are_not_numbers() {
    assert!(lerp(&f64::NAN, &1.0, 0.5).is_nan());
    assert!(lerp(&0.0, &1.0, f64::NAN).is_nan());
    assert_eq!(lerp(&0.0, &f64::INFINITY, 0.5), f64::INFINITY);
}

#[test]
fn approach_moves_the_source_towards_the_target() {
    let mut value = 0.0;
    approach(&mut value, &10.0, 0.5);
    assert_eq!(value, 5.0);
    approach(&mut value, &10.0, 0.5);
    assert_eq!(value, 7.5);
    approach(&mut value, &10.0, 0.5);
    assert_eq!(value, 8.75);
}

#[test]
fn approach_at_rate_zero_leaves_the_source() {
    let mut value = 3.0;
    approach(&mut value, &10.0, 0.0);
    assert_eq!(value, 3.0);
}

#[test]
fn approach_at_rate_one_reaches_the_target() {
    let mut value = 3.0;
    approach(&mut value, &10.0, 1.0);
    assert_eq!(value, 10.0);
}

#[test]
fn approach_writes_what_lerp_returns() {
    let pairs = [(0.0, 10.0, 0.25), (5.0, -5.0, 0.5), (1.0, 2.0, 3.0), (-2.0, 6.0, -0.5)];
    for (source, target, rate) in pairs {
        let mut value = source;
        approach(&mut value, &target, rate);
        assert_eq!(value, lerp(&source, &target, rate));
    }
}

#[test]
fn approach_does_not_limit_the_rate() {
    let mut value = 0.0;
    approach(&mut value, &10.0, 2.0);
    assert_eq!(value, 20.0);
}
