//! Fixed-point scalar arithmetic.

use rigid2d::fx::{
    fx_abs, fx_add, fx_clamp, fx_cos, fx_div, fx_max, fx_min, fx_mul, fx_neg, fx_sin, fx_sqrt,
    fx_sub, FX_HALF_PI, FX_MAX, FX_ONE,
};

#[test]
fn add_sub_neg_are_exact() {
    assert_eq!(fx_add(1_500_000, 2_500_000), 4_000_000);
    assert_eq!(fx_sub(1_000_000, 3_000_000), -2_000_000);
    assert_eq!(fx_neg(7), -7);
    assert_eq!(fx_abs(-250_000), 250_000);
}

#[test]
fn add_saturates_at_the_edge() {
    assert_eq!(fx_add(FX_MAX, FX_MAX), FX_MAX);
    assert_eq!(fx_sub(-FX_MAX, FX_MAX), -FX_MAX);
    assert_eq!(fx_neg(i64::MIN), FX_MAX);
}

#[test]
fn mul_scales_by_one_million() {
    assert_eq!(fx_mul(2_000_000, 3_000_000), 6_000_000);
    assert_eq!(fx_mul(1_500_000, 1_500_000), 2_250_000);
    assert_eq!(fx_mul(-2_000_000, 3_000_000), -6_000_000);
    assert_eq!(fx_mul(FX_ONE, 123_456), 123_456);
    // Rounds toward zero in both signs.
    assert_eq!(fx_mul(1, 1), 0);
    assert_eq!(fx_mul(-1, 1), 0);
}

#[test]
fn div_is_truncating_and_total() {
    assert_eq!(fx_div(1_000_000, 3_000_000), 333_333);
    assert_eq!(fx_div(-1_000_000, 3_000_000), -333_333);
    assert_eq!(fx_div(1_000_000, -3_000_000), -333_333);
    assert_eq!(fx_div(6_000_000, 2_000_000), 3_000_000);
    assert_eq!(fx_div(5, 0), 0);
}

#[test]
fn sqrt_of_perfect_squares_is_exact() {
    assert_eq!(fx_sqrt(4_000_000), 2_000_000);
    assert_eq!(fx_sqrt(FX_ONE), FX_ONE);
    assert_eq!(fx_sqrt(25_000_000), 5_000_000);
    assert_eq!(fx_sqrt(0), 0);
    assert_eq!(fx_sqrt(-9), 0);
}

#[test]
fn sqrt_of_two() {
    let r = fx_sqrt(2_000_000);
    assert!((r - 1_414_213).abs() <= 1, "sqrt(2) = {r}");
}

#[test]
fn trig_at_axis_angles() {
    assert_eq!(fx_cos(0), FX_ONE);
    assert_eq!(fx_sin(0), 0);
    assert_eq!(fx_cos(FX_HALF_PI), 0);
    assert_eq!(fx_sin(FX_HALF_PI), FX_ONE);
    assert_eq!(fx_cos(2 * FX_HALF_PI), -FX_ONE);
    assert_eq!(fx_sin(2 * FX_HALF_PI), 0);
}

#[test]
fn trig_at_thirty_degrees() {
    let s = fx_sin(523_599);
    let c = fx_cos(523_599);
    assert!((s - 500_000).abs() <= 20, "sin(pi/6) = {s}");
    assert!((c - 866_025).abs() <= 20, "cos(pi/6) = {c}");
}

#[test]
fn trig_of_negative_angles() {
    let s = fx_sin(-523_599);
    let c = fx_cos(-523_599);
    assert!((s + 500_000).abs() <= 20, "sin(-pi/6) = {s}");
    assert!((c - 866_025).abs() <= 20, "cos(-pi/6) = {c}");
}

#[test]
fn clamp_min_max() {
    assert_eq!(fx_clamp(5, -3, 3), 3);
    assert_eq!(fx_clamp(-5, -3, 3), -3);
    assert_eq!(fx_clamp(2, -3, 3), 2);
    assert_eq!(fx_min(2, 7), 2);
    assert_eq!(fx_max(2, 7), 7);
}
