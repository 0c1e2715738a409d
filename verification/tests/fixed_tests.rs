use material_graph::fixed::{
    fx_add, fx_clamp, fx_div, fx_fresnel, fx_mix, fx_mul, fx_noise, fx_one_minus, fx_pow,
    fx_remap, fx_sub, FX_HALF, FX_ONE,
};

#[test]
fn fx_add_exact_and_saturating() {
    assert_eq!(fx_add(2_000_000, 3_000_000), 5_000_000);
    assert_eq!(fx_add(i64::MAX, 1), i64::MAX);
    assert_eq!(fx_add(i64::MIN, -1), i64::MIN);
}

#[test]
fn fx_sub_exact_and_saturating() {
    assert_eq!(fx_sub(2_000_000, 3_000_000), -1_000_000);
    assert_eq!(fx_sub(i64::MIN, 1), i64::MIN);
    assert_eq!(fx_sub(i64::MAX, -1), i64::MAX);
}

#[test]
fn fx_mul_exact_products() {
    // 3 * 4 = 12
    assert_eq!(fx_mul(3_000_000, 4_000_000), 12_000_000);
    // 0.5 * 0.5 = 0.25
    assert_eq!(fx_mul(FX_HALF, FX_HALF), 250_000);
    assert_eq!(fx_mul(0, 123_456), 0);
}

#[test]
fn fx_mul_truncates_toward_zero() {
    // -1.5 * 0.333333 = -0.4999995, truncated toward zero.
    assert_eq!(fx_mul(-1_500_000, 333_333), -499_999);
    assert_eq!(fx_mul(1_500_000, 333_333), 499_999);
}

#[test]
fn fx_mul_saturates() {
    assert_eq!(fx_mul(i64::MAX, i64::MAX), i64::MAX);
    assert_eq!(fx_mul(i64::MAX, i64::MIN), i64::MIN);
}

#[test]
fn fx_div_exact_quotients() {
    assert_eq!(fx_div(12_000_000, 4_000_000), 3_000_000);
    assert_eq!(fx_div(1_000_000, 3_000_000), 333_333);
    assert_eq!(fx_div(-1_000_000, 3_000_000), -333_333);
}

#[test]
fn fx_div_by_zero_saturates_by_sign() {
    assert_eq!(fx_div(5, 0), i64::MAX);
    assert_eq!(fx_div(-5, 0), i64::MIN);
    assert_eq!(fx_div(0, 0), 0);
}

#[test]
fn fx_clamp_orders_low_bound_first() {
    assert_eq!(fx_clamp(-1, 0, FX_ONE), 0);
    assert_eq!(fx_clamp(2_000_000, 0, FX_ONE), FX_ONE);
    assert_eq!(fx_clamp(300_000, 0, FX_ONE), 300_000);
    // A reversed range resolves the low bound first.
    assert_eq!(fx_clamp(3, 5, 2), 5);
}

#[test]
fn fx_mix_blends_and_clamps_factor() {
    // 1 * 0.5 + 0 * 0.5 = 0.5
    assert_eq!(fx_mix(FX_ONE, 0, FX_HALF), FX_HALF);
    // The factor is clamped into [0, 1].
    assert_eq!(fx_mix(FX_ONE, 0, 2_000_000), 0);
    assert_eq!(fx_mix(FX_ONE, 0, -2_000_000), FX_ONE);
}

#[test]
fn fx_one_minus_flips() {
    assert_eq!(fx_one_minus(300_000), 700_000);
    assert_eq!(fx_one_minus(-FX_ONE), 2_000_000);
}

#[test]
fn fx_remap_maps_linearly() {
    // 5 from [0, 10] into [0, 100] gives 50.
    assert_eq!(
        fx_remap(5_000_000, 0, 10_000_000, 0, 100_000_000),
        50_000_000
    );
    // The result is not clamped into the target range.
    assert_eq!(
        fx_remap(20_000_000, 0, 10_000_000, 0, 100_000_000),
        200_000_000
    );
}

#[test]
fn fx_pow_integer_exponents() {
    // 2 ^ 10 = 1024
    assert_eq!(fx_pow(2_000_000, 10_000_000), 1_024_000_000);
    // 0.5 ^ 2 = 0.25
    assert_eq!(fx_pow(FX_HALF, 2_000_000), 250_000);
    // Anything ^ 0 = 1
    assert_eq!(fx_pow(123_456, 0), FX_ONE);
    // 2 ^ -1 = 0.5
    assert_eq!(fx_pow(2_000_000, -1_000_000), FX_HALF);
}

#[test]
fn fx_pow_rounds_exponent_to_nearest() {
    // An exponent of 2.5 rounds to 3.
    assert_eq!(fx_pow(2_000_000, 2_500_000), 8_000_000);
    // An exponent of 2.4 rounds to 2.
    assert_eq!(fx_pow(2_000_000, 2_400_000), 4_000_000);
}

#[test]
fn fx_noise_wraps_half_scale() {
    // Half of 5 is 2.5; its fractional part is 0.5.
    assert_eq!(fx_noise(5_000_000), FX_HALF);
    // Half of 4 is 2; its fractional part is 0.
    assert_eq!(fx_noise(4_000_000), 0);
    // The stand-in always lands in [0, 1).
    for scale in [-7_300_000i64, -1, 0, 999_999, 123_456_789] {
        let n = fx_noise(scale);
        assert!(n >= 0 && n < FX_ONE);
    }
}

#[test]
fn fx_fresnel_default_ior() {
    // ((1.45 - 1) / (1.45 + 1))^2 in fixed point.
    assert_eq!(fx_fresnel(1_450_000), 33_735);
}
