//! The fixed-point scalar core: products, clamping, angle wrapping and
//! the sine approximation's exact anchor points.

use rusted_tree::fixed::{
    fx_clamped_add, fx_mul, fx_wrap_angle, fxcos, fxsin, FX_HALF, FX_LIM, FX_ONE, FX_TURN,
};

#[test]
fn product_of_units_is_unit() {
    assert_eq!(fx_mul(FX_ONE, FX_ONE), FX_ONE);
    assert_eq!(fx_mul(FX_ONE, 0), 0);
    assert_eq!(fx_mul(0, FX_ONE), 0);
}

#[test]
fn product_scales_and_keeps_signs() {
    assert_eq!(fx_mul(2_500_000, 2_000_000), 5_000_000);
    assert_eq!(fx_mul(-2_500_000, 2_000_000), -5_000_000);
    assert_eq!(fx_mul(2_500_000, -2_000_000), -5_000_000);
    assert_eq!(fx_mul(-2_500_000, -2_000_000), 5_000_000);
}

#[test]
fn product_rounds_toward_zero() {
    assert_eq!(fx_mul(1, 1), 0);
    assert_eq!(fx_mul(1_500_000, 1), 1);
    assert_eq!(fx_mul(-1_500_000, 1), -1);
}

#[test]
fn clamped_add_saturates_at_range_bounds() {
    assert_eq!(fx_clamped_add(5, 7), 12);
    assert_eq!(fx_clamped_add(FX_LIM, 10_000), FX_LIM);
    assert_eq!(fx_clamped_add(-FX_LIM, -10_000), -FX_LIM);
    assert_eq!(fx_clamped_add(FX_LIM, -1), FX_LIM - 1);
}

#[test]
fn wrap_angle_is_the_representative_in_one_turn() {
    assert_eq!(fx_wrap_angle(0), 0);
    assert_eq!(fx_wrap_angle(FX_TURN), 0);
    assert_eq!(fx_wrap_angle(-1), FX_TURN - 1);
    assert_eq!(fx_wrap_angle(FX_TURN + 123), 123);
    assert_eq!(fx_wrap_angle(-FX_TURN), 0);
}

#[test]
fn sine_anchor_points_are_exact() {
    assert_eq!(fxsin(0), 0);
    assert_eq!(fxsin(FX_HALF), FX_ONE);
    assert_eq!(fxsin(FX_ONE), 0);
    assert_eq!(fxsin(FX_ONE + FX_HALF), -FX_ONE);
    assert_eq!(fxsin(FX_TURN), 0);
    assert_eq!(fxcos(0), FX_ONE);
    assert_eq!(fxcos(FX_HALF), 0);
    assert_eq!(fxcos(FX_ONE), -FX_ONE);
}

#[test]
fn sine_tracks_the_real_sine_closely() {
    let mut a: i64 = 0;
    while a < FX_TURN {
        let approx = fxsin(a) as f64 / FX_ONE as f64;
        let exact = (std::f64::consts::PI * a as f64 / FX_ONE as f64).sin();
        let diff = (approx - exact).abs();
        assert!(diff < 0.0025, "angle {}: approx {} exact {}", a, approx, exact);
        a += 12_345;
    }
}

#[test]
fn sine_stays_within_the_unit_range() {
    let mut a: i64 = 0;
    while a <= FX_TURN {
        let s = fxsin(a);
        assert!(-FX_ONE <= s && s <= FX_ONE);
        let c = fxcos(a);
        assert!(-FX_ONE <= c && c <= FX_ONE);
        a += 7_919;
    }
}
