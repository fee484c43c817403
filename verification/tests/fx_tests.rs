use rastr::fx::{
    fx_add, fx_clamp, fx_cos, fx_div, fx_divn, fx_gamma, fx_lerp, fx_max, fx_min, fx_mul, fx_neg,
    fx_rem_euclid, fx_sin, fx_sqrt, fx_sub, fx_tan, FX_HALF_PI, FX_MAX, FX_MIN, FX_ONE, FX_PI,
    FX_TWO_PI,
};

#[test]
fn add_sub_neg_exact() {
    assert_eq!(fx_add(3 * FX_ONE, 2 * FX_ONE), 5 * FX_ONE);
    assert_eq!(fx_sub(3 * FX_ONE, 5 * FX_ONE), -2 * FX_ONE);
    assert_eq!(fx_neg(7), -7);
    assert_eq!(fx_neg(i64::MIN), FX_MAX);
}

#[test]
fn add_saturates() {
    assert_eq!(fx_add(FX_MAX, FX_MAX), FX_MAX);
    assert_eq!(fx_sub(FX_MIN, FX_MAX), FX_MIN);
}

#[test]
fn mul_truncates_toward_zero() {
    assert_eq!(fx_mul(3 * FX_ONE, 2 * FX_ONE), 6 * FX_ONE);
    assert_eq!(fx_mul(FX_ONE / 2, FX_ONE / 2), FX_ONE / 4);
    // 1.5 * -1.5 = -2.25
    assert_eq!(fx_mul(98304, -98304), -147456);
    // truncation of tiny magnitudes goes toward zero
    assert_eq!(fx_mul(1, 1), 0);
    assert_eq!(fx_mul(-1, 1), 0);
}

#[test]
fn div_exact_cases() {
    assert_eq!(fx_div(FX_ONE, 3 * FX_ONE), 21845);
    assert_eq!(fx_div(-FX_ONE, 3 * FX_ONE), -21845);
    assert_eq!(fx_div(6 * FX_ONE, 2 * FX_ONE), 3 * FX_ONE);
    assert_eq!(fx_div(5 * FX_ONE, 0), 0);
    assert_eq!(fx_divn(7 * FX_ONE, 2), 7 * FX_ONE / 2);
    assert_eq!(fx_divn(-7, 2), -3);
}

#[test]
fn lerp_endpoints_and_midpoint() {
    let a = 2 * FX_ONE;
    let b = 6 * FX_ONE;
    assert_eq!(fx_lerp(a, b, 0), a);
    assert_eq!(fx_lerp(a, b, FX_ONE), b);
    assert_eq!(fx_lerp(a, b, FX_ONE / 2), 4 * FX_ONE);
}

#[test]
fn min_max_clamp() {
    assert_eq!(fx_min(3, -4), -4);
    assert_eq!(fx_max(3, -4), 3);
    assert_eq!(fx_clamp(10, 0, 5), 5);
    assert_eq!(fx_clamp(-10, 0, 5), 0);
    assert_eq!(fx_clamp(3, 0, 5), 3);
}

#[test]
fn rem_euclid_matches_mathematical_remainder() {
    assert_eq!(fx_rem_euclid(7, 3), 1);
    assert_eq!(fx_rem_euclid(-7, 3), 2);
    assert_eq!(fx_rem_euclid(-6, 3), 0);
    assert_eq!(fx_rem_euclid(0, 5), 0);
}

#[test]
fn sqrt_exact_squares() {
    assert_eq!(fx_sqrt(4 * FX_ONE), 2 * FX_ONE);
    assert_eq!(fx_sqrt(FX_ONE), FX_ONE);
    assert_eq!(fx_sqrt(0), 0);
    assert_eq!(fx_sqrt(-5), 0);
    // sqrt(2) = 92681.9 in fixed point, truncated
    assert_eq!(fx_sqrt(2 * FX_ONE), 92681);
}

#[test]
fn trig_special_values() {
    assert_eq!(fx_sin(0), 0);
    assert_eq!(fx_cos(0), FX_ONE);
    // the polynomial is exact to within a few thousandths of one
    assert_eq!(fx_sin(FX_HALF_PI), 65526);
    assert_eq!(fx_cos(FX_PI), -65536);
    assert_eq!(fx_sin(FX_ONE), 55147);
    assert_eq!(fx_cos(FX_ONE), 35407);
    // periodicity through the Euclidean remainder
    assert_eq!(fx_sin(FX_TWO_PI), fx_sin(0));
    assert_eq!(fx_cos(-FX_TWO_PI), fx_cos(0));
}

#[test]
fn trig_close_to_reference() {
    // across a few radians the approximation stays within a few hundred
    // sixty-five-thousandths of the true sine
    for k in -12..13 {
        let a = k * FX_ONE / 2;
        let approx = fx_sin(a) as f64 / 65536.0;
        let exact = ((a as f64) / 65536.0).sin();
        assert!((approx - exact).abs() < 0.01, "sin({}) = {} vs {}", k, approx, exact);
    }
}

#[test]
fn tan_of_half_fov() {
    // the half-height coefficient used by the sixty-degree camera
    assert_eq!(fx_tan(68630 / 2), 37837);
}

#[test]
fn gamma_endpoints() {
    assert_eq!(fx_gamma(FX_ONE), FX_ONE);
    assert_eq!(fx_gamma(0), 0);
    // 0.25 ^ (1/2.2) = 0.5327...; the nested square roots give it to within
    // a few thousandths
    assert_eq!(fx_gamma(FX_ONE / 4), 34915);
    let g = fx_gamma(FX_ONE / 4) as f64 / 65536.0;
    assert!((g - 0.25f64.powf(1.0 / 2.2)).abs() < 0.005);
}
