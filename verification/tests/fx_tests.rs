//! Fixed-point arithmetic and trigonometry behaviour.

use glimpse_physics::fx::{fx_abs, fx_add, fx_mul, fx_neg, fx_sub, MU, PHYSICS_TIME_STEP, SCALE};
use glimpse_physics::schedule::advance_accumulator;
use glimpse_physics::trig::{cos_fx, norm_angle, sin_fx, PI_FX, TWO_PI_FX};

#[test]
fn multiplication_scales_back_down() {
    // 2.0 * 3.0 == 6.0 on the fixed-point grid.
    assert_eq!(fx_mul(2 * SCALE, 3 * SCALE), 6 * SCALE);
    // 0.5 * 0.5 == 0.25 exactly.
    assert_eq!(fx_mul(SCALE / 2, SCALE / 2), SCALE / 4);
    // Truncation is toward zero for both signs.
    assert_eq!(fx_mul(1, 1), 0);
    assert_eq!(fx_mul(-1, 1), 0);
}

#[test]
fn addition_saturates_at_the_symmetric_bound() {
    assert_eq!(fx_add(i64::MAX, i64::MAX), i64::MAX);
    assert_eq!(fx_sub(-i64::MAX, 5), -i64::MAX);
    assert_eq!(fx_neg(i64::MIN), i64::MAX);
    assert_eq!(fx_abs(i64::MIN), i64::MAX);
    assert_eq!(fx_add(3, 4), 7);
}

#[test]
fn angles_reduce_into_one_turn() {
    assert_eq!(norm_angle(0), 0);
    assert_eq!(norm_angle(TWO_PI_FX), 0);
    assert_eq!(norm_angle(-TWO_PI_FX), 0);
    assert_eq!(norm_angle(PI_FX + TWO_PI_FX), PI_FX);
    let r = norm_angle(5 * TWO_PI_FX + 1234);
    assert_eq!(r, 1234);
}

#[test]
fn trig_is_exact_at_zero() {
    assert_eq!(cos_fx(0), SCALE);
    assert_eq!(sin_fx(0), 0);
    // One full turn lands back on the same grid values.
    assert_eq!(cos_fx(TWO_PI_FX), SCALE);
    assert_eq!(sin_fx(TWO_PI_FX), 0);
}

#[test]
fn trig_approximates_the_quarter_turn() {
    // cos(pi/2) should be near zero, sin(pi/2) near one, within the
    // truncated-series tolerance.
    let half_pi = PI_FX / 2;
    assert!(cos_fx(half_pi).abs() < SCALE / 100);
    assert!((sin_fx(half_pi) - SCALE).abs() < SCALE / 100);
}

#[test]
fn accumulator_splits_whole_ticks() {
    // Exactly one tick of time yields one tick and no remainder.
    let (rem, ticks) = advance_accumulator(0, PHYSICS_TIME_STEP);
    assert_eq!(ticks, 1);
    assert_eq!(rem, 0);
    // Two and a half ticks yield two ticks and half a tick left over.
    let (rem, ticks) = advance_accumulator(0, 2 * PHYSICS_TIME_STEP + 16_000);
    assert_eq!(ticks, 2);
    assert_eq!(rem, 16_000);
    // The remainder carries into the next frame.
    let (rem2, ticks2) = advance_accumulator(rem, PHYSICS_TIME_STEP - 16_000);
    assert_eq!(ticks2, 1);
    assert_eq!(rem2, 0);
}

#[test]
fn rest_threshold_is_tiny() {
    assert!(MU < SCALE / 1_000_000);
    assert!(MU > 0);
}
