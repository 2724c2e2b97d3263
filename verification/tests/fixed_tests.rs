use gravity_sim::fixed::{SCALE, abs_u64, clamp_i64, div_fx, mul_fx};
use gravity_sim::trig::{HALF_PI_FX, PI_FX, TAU_FX, cos_fx, sin_fx, wrap_angle};
use gravity_sim::vec2::Vec2;

#[test]
fn scale_is_one_million() {
    assert_eq!(SCALE, 1_000_000);
}

#[test]
fn abs_handles_extremes() {
    assert_eq!(abs_u64(0), 0);
    assert_eq!(abs_u64(5), 5);
    assert_eq!(abs_u64(-5), 5);
    assert_eq!(abs_u64(i64::MIN), 9_223_372_036_854_775_808u64);
}

#[test]
fn mul_fx_exact_products() {
    assert_eq!(mul_fx(2_000_000, 3_000_000), 6_000_000);
    assert_eq!(mul_fx(-1_500_000, 2_000_000), -3_000_000);
    assert_eq!(mul_fx(0, 123_456), 0);
}

#[test]
fn mul_fx_truncates_toward_zero() {
    assert_eq!(mul_fx(1, 1), 0);
    assert_eq!(mul_fx(-1, 1), 0);
    assert_eq!(mul_fx(999_999, 1), 0);
    assert_eq!(mul_fx(-999_999, 1), 0);
}

#[test]
fn div_fx_truncates_toward_zero() {
    assert_eq!(div_fx(1_000_000, 3_000_000), 333_333);
    assert_eq!(div_fx(-1_000_000, 3_000_000), -333_333);
    assert_eq!(div_fx(400_000_000, 2_000_000), 200_000_000);
}

#[test]
fn clamp_works() {
    assert_eq!(clamp_i64(5, 0, 10), 5);
    assert_eq!(clamp_i64(-5, 0, 10), 0);
    assert_eq!(clamp_i64(50, 0, 10), 10);
}

#[test]
fn trig_exact_at_axes() {
    assert_eq!(cos_fx(0), SCALE);
    assert_eq!(sin_fx(0), 0);
    assert_eq!(cos_fx(HALF_PI_FX), 0);
    assert_eq!(sin_fx(HALF_PI_FX), SCALE);
    assert_eq!(cos_fx(PI_FX), -SCALE);
}

#[test]
fn trig_stays_in_unit_range() {
    let mut a: i64 = 0;
    while a < TAU_FX {
        let c = cos_fx(a);
        let s = sin_fx(a);
        assert!(-SCALE <= c && c <= SCALE);
        assert!(-SCALE <= s && s <= SCALE);
        a += 10_007;
    }
}

#[test]
fn wrap_angle_reduces_into_turn() {
    assert_eq!(wrap_angle(0), 0);
    assert_eq!(wrap_angle(123), 123);
    assert_eq!(wrap_angle(TAU_FX), 0);
    assert_eq!(wrap_angle(TAU_FX + 5), 5);
    assert_eq!(wrap_angle(-1), TAU_FX - 1);
    assert_eq!(wrap_angle(-TAU_FX), 0);
    assert_eq!(wrap_angle(-TAU_FX - 7), TAU_FX - 7);
}

#[test]
fn vec2_zero_detection() {
    let z = Vec2::zero();
    assert!(z.is_zero());
    assert!(!Vec2::new(1, 0).is_zero());
    assert!(!Vec2::new(0, -1).is_zero());
}
