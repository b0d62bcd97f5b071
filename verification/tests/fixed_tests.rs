use isp_sim::fixed::{
    fx_abs, fx_add, fx_div, fx_hypot, fx_mul, fx_mul_div, fx_neg, fx_pow_seven_tenths, fx_root5,
    fx_scale, fx_sqrt, fx_sub, isqrt, HALF_PI, ONE, PI, TAU,
};

#[test]
fn angle_constants_are_consistent() {
    assert_eq!(PI, 2 * HALF_PI);
    assert_eq!(TAU, 2 * PI);
    assert!((PI as f64 / ONE as f64 - std::f64::consts::PI).abs() < 1e-9);
}

#[test]
fn addition_and_subtraction() {
    assert_eq!(fx_add(ONE, 2 * ONE), 3 * ONE);
    assert_eq!(fx_sub(ONE, 2 * ONE), -ONE);
    assert_eq!(fx_add(-5, 5), 0);
}

#[test]
fn addition_and_subtraction_saturate() {
    assert_eq!(fx_add(i64::MAX, 1), i64::MAX);
    assert_eq!(fx_add(i64::MIN, -1), i64::MIN);
    assert_eq!(fx_sub(i64::MIN, 1), i64::MIN);
    assert_eq!(fx_sub(i64::MAX, -1), i64::MAX);
    assert_eq!(fx_sub(0, i64::MIN), i64::MAX);
}

#[test]
fn negation_and_absolute_value() {
    assert_eq!(fx_neg(ONE), -ONE);
    assert_eq!(fx_neg(-ONE), ONE);
    assert_eq!(fx_neg(i64::MIN), i64::MAX);
    assert_eq!(fx_abs(-3 * ONE), 3 * ONE);
    assert_eq!(fx_abs(3 * ONE), 3 * ONE);
    assert_eq!(fx_abs(i64::MIN), i64::MAX);
}

#[test]
fn multiplication() {
    assert_eq!(fx_mul(2 * ONE, 3 * ONE), 6 * ONE);
    assert_eq!(fx_mul(ONE / 2, ONE / 2), ONE / 4);
    assert_eq!(fx_mul(-2 * ONE, 3 * ONE), -6 * ONE);
    assert_eq!(fx_mul(-2 * ONE, -3 * ONE), 6 * ONE);
    assert_eq!(fx_mul(123_456_789, ONE), 123_456_789);
    assert_eq!(fx_mul(123_456_789, 0), 0);
}

#[test]
fn multiplication_rounds_toward_zero() {
    assert_eq!(fx_mul(1, ONE / 2), 0);
    assert_eq!(fx_mul(-1, ONE / 2), 0);
    assert_eq!(fx_mul(3, ONE / 2), 1);
    assert_eq!(fx_mul(-3, ONE / 2), -1);
}

#[test]
fn multiplication_saturates() {
    assert_eq!(fx_mul(i64::MAX, 2 * ONE), i64::MAX);
    assert_eq!(fx_mul(i64::MAX, -2 * ONE), i64::MIN);
    assert_eq!(fx_mul(i64::MIN, i64::MIN), i64::MAX);
}

#[test]
fn division() {
    assert_eq!(fx_div(6 * ONE, 3 * ONE), 2 * ONE);
    assert_eq!(fx_div(ONE, 4 * ONE), ONE / 4);
    assert_eq!(fx_div(-ONE, 4 * ONE), -ONE / 4);
    assert_eq!(fx_div(ONE, -4 * ONE), -ONE / 4);
    assert_eq!(fx_div(ONE, 3 * ONE), 333_333_333);
    assert_eq!(fx_div(-ONE, 3 * ONE), -333_333_333);
    assert_eq!(fx_div(10 * ONE, 1), i64::MAX);
    assert_eq!(fx_div(-10 * ONE, 1), i64::MIN);
}

#[test]
fn fused_multiply_divide() {
    assert_eq!(fx_mul_div(200_000_000, 20 * ONE, 500_000_000), 8 * ONE);
    assert_eq!(fx_mul_div(7, 3, 2), 10);
    assert_eq!(fx_mul_div(-7, 3, 2), -10);
    assert_eq!(fx_mul_div(i64::MAX, i64::MAX, i64::MAX), i64::MAX);
    assert_eq!(fx_mul_div(i64::MIN, i64::MIN, 1), i64::MAX);
}

#[test]
fn integer_scaling() {
    assert_eq!(fx_scale(ONE / 3, 3), 999_999_999);
    assert_eq!(fx_scale(-ONE, 3), -3 * ONE);
    assert_eq!(fx_scale(i64::MAX, 3), i64::MAX);
    assert_eq!(fx_scale(i64::MIN, 3), i64::MIN);
}

#[test]
fn integer_square_root() {
    assert_eq!(isqrt(0), 0);
    assert_eq!(isqrt(1), 1);
    assert_eq!(isqrt(3), 1);
    assert_eq!(isqrt(4), 2);
    assert_eq!(isqrt(99), 9);
    assert_eq!(isqrt(100), 10);
    assert_eq!(isqrt(u128::MAX), u64::MAX);
    assert_eq!(isqrt(1 << 126), 1 << 63);
}

#[test]
fn square_root() {
    assert_eq!(fx_sqrt(0), 0);
    assert_eq!(fx_sqrt(ONE), ONE);
    assert_eq!(fx_sqrt(4 * ONE), 2 * ONE);
    assert_eq!(fx_sqrt(ONE / 4), ONE / 2);
    assert_eq!(fx_sqrt(2 * ONE), 1_414_213_562);
    assert_eq!(fx_sqrt(i64::MAX), 96_038_388_349_944);
}

#[test]
fn vector_length() {
    assert_eq!(fx_hypot(3 * ONE, 4 * ONE), 5 * ONE);
    assert_eq!(fx_hypot(-3 * ONE, 4 * ONE), 5 * ONE);
    assert_eq!(fx_hypot(0, -7), 7);
    assert_eq!(fx_hypot(0, 0), 0);
    assert_eq!(fx_hypot(ONE, ONE), 1_414_213_562);
    assert_eq!(fx_hypot(i64::MIN, 0), i64::MAX);
    assert_eq!(fx_hypot(i64::MAX, i64::MAX), i64::MAX);
}

#[test]
fn fifth_root() {
    assert_eq!(fx_root5(0), 0);
    assert_eq!(fx_root5(ONE), ONE);
    // 0.5^5 = 0.03125
    assert_eq!(fx_root5(31_250_000), ONE / 2);
    // 0.1^5 = 0.00001
    assert_eq!(fx_root5(10_000), ONE / 10);
}

#[test]
fn fifth_root_is_close_to_the_real_root() {
    let mut x: i64 = 1;
    while x <= ONE {
        let got = fx_root5(x) as f64 / ONE as f64;
        let want = (x as f64 / ONE as f64).powf(0.2);
        assert!((got - want).abs() < 1e-8, "x = {x}: {got} against {want}");
        x = x * 3 + 1;
    }
}

#[test]
fn power_of_seven_tenths() {
    assert_eq!(fx_pow_seven_tenths(0), 0);
    assert_eq!(fx_pow_seven_tenths(ONE), ONE);
    let mut x: i64 = 1;
    while x <= ONE {
        let got = fx_pow_seven_tenths(x) as f64 / ONE as f64;
        let want = (x as f64 / ONE as f64).powf(0.7);
        assert!((got - want).abs() < 1e-8, "x = {x}: {got} against {want}");
        x += 7_654_321;
    }
}
