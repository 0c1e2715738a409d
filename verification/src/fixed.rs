//! Saturating fixed-point arithmetic on `i64` values counting millionths.
//!
//! Every quantity that flows through the material graph is a fixed-point
//! number: the `i64` raw value divided by `FX_ONE` is the quantity it stands
//! for. Operations whose exact result would leave the `i64` range saturate
//! at the nearest bound, and divisions truncate toward zero, the way the
//! machine division does.

use vstd::prelude::*;

verus! {

/// One, in fixed-point units (millionths).
pub const FX_ONE: i64 = 1_000_000;

/// One half, in fixed-point units.
pub const FX_HALF: i64 = 500_000;

/// Clamps an unbounded integer into the range of `i64`.
pub open spec fn fx_sat(x: int) -> int {
    if x > i64::MAX {
        i64::MAX as int
    } else if x < i64::MIN {
        i64::MIN as int
    } else {
        x
    }
}

/// Division truncating toward zero, for any non-zero divisor. This is the
/// rounding of the machine's signed division; the `/` of spec code rounds
/// toward minus infinity instead.
pub open spec fn trunc_div(x: int, d: int) -> int
    recommends
        d != 0,
{
    if x == 0 {
        0
    } else if x > 0 && d > 0 {
        x / d
    } else if x < 0 && d < 0 {
        (x * -1) / (d * -1)
    } else if x < 0 {
        ((x * -1) / d) * -1
    } else {
        (x / (d * -1)) * -1
    }
}

/// The magnitude of a quotient never exceeds the magnitude of the dividend.
proof fn lemma_trunc_div_bound(x: int, d: int)
    requires
        d != 0,
    ensures
        trunc_div(x, d) <= (if x >= 0 { x } else { x * -1 }),
        trunc_div(x, d) >= (if x >= 0 { x } else { x * -1 }) * -1,
{
    if x == 0 {
    } else if x > 0 && d > 0 {
        vstd::arithmetic::div_mod::lemma_div_pos_is_pos(x, d);
        vstd::arithmetic::div_mod::lemma_div_nonincreasing(x, d);
    } else if x < 0 && d < 0 {
        vstd::arithmetic::div_mod::lemma_div_pos_is_pos(x * -1, d * -1);
        vstd::arithmetic::div_mod::lemma_div_nonincreasing(x * -1, d * -1);
    } else if x < 0 {
        vstd::arithmetic::div_mod::lemma_div_pos_is_pos(x * -1, d);
        vstd::arithmetic::div_mod::lemma_div_nonincreasing(x * -1, d);
    } else {
        vstd::arithmetic::div_mod::lemma_div_pos_is_pos(x, d * -1);
        vstd::arithmetic::div_mod::lemma_div_nonincreasing(x, d * -1);
    }
}

/// Saturating fixed-point addition.
pub open spec fn spec_fx_add(a: int, b: int) -> int {
    fx_sat(a + b)
}

/// Saturating fixed-point subtraction.
pub open spec fn spec_fx_sub(a: int, b: int) -> int {
    fx_sat(a - b)
}

/// Saturating fixed-point multiplication: the exact product is scaled back
/// down by `FX_ONE`, truncating toward zero.
pub open spec fn spec_fx_mul(a: int, b: int) -> int {
    fx_sat(trunc_div(a * b, FX_ONE as int))
}

/// Clamping, resolved low bound first: below `lo` gives `lo`, else above
/// `hi` gives `hi`. Total even when `lo > hi`.
pub open spec fn spec_fx_clamp(v: int, lo: int, hi: int) -> int {
    if v < lo {
        lo
    } else if v > hi {
        hi
    } else {
        v
    }
}

pub fn fx_add(a: i64, b: i64) -> (r: i64)
    ensures
        r == spec_fx_add(a as int, b as int),
{
    let s: i128 = a as i128 + b as i128;
    if s > i64::MAX as i128 {
        i64::MAX
    } else if s < i64::MIN as i128 {
        i64::MIN
    } else {
        s as i64
    }
}

pub fn fx_sub(a: i64, b: i64) -> (r: i64)
    ensures
        r == spec_fx_sub(a as int, b as int),
{
    let s: i128 = a as i128 - b as i128;
    if s > i64::MAX as i128 {
        i64::MAX
    } else if s < i64::MIN as i128 {
        i64::MIN
    } else {
        s as i64
    }
}

pub fn fx_mul(a: i64, b: i64) -> (r: i64)
    ensures
        r == spec_fx_mul(a as int, b as int),
{
    proof {
        assert(-0x4000_0000_0000_0000_0000_0000_0000_0000 <= (a as int) * (b as int)
            <= 0x4000_0000_0000_0000_0000_0000_0000_0000) by (nonlinear_arith)
            requires
                i64::MIN <= a <= i64::MAX,
                i64::MIN <= b <= i64::MAX,
        ;
    }
    let p: i128 = (a as i128) * (b as i128);
    proof {
        lemma_trunc_div_bound(p as int, FX_ONE as int);
    }
    let q: i128 = p.checked_div(FX_ONE as i128).unwrap();
    if q > i64::MAX as i128 {
        i64::MAX
    } else if q < i64::MIN as i128 {
        i64::MIN
    } else {
        q as i64
    }
}

pub fn fx_clamp(v: i64, lo: i64, hi: i64) -> (r: i64)
    ensures
        r == spec_fx_clamp(v as int, lo as int, hi as int),
{
    if v < lo {
        lo
    } else if v > hi {
        hi
    } else {
        v
    }
}

/// Saturating fixed-point division, truncating toward zero. A zero divisor
/// saturates by the sign of the dividend, the fixed-point stand-in for a
/// quotient beyond every bound.
pub open spec fn spec_fx_div(a: int, b: int) -> int {
    if b == 0 {
        if a > 0 {
            i64::MAX as int
        } else if a < 0 {
            i64::MIN as int
        } else {
            0
        }
    } else {
        fx_sat(trunc_div(a * (FX_ONE as int), b))
    }
}

pub fn fx_div(a: i64, b: i64) -> (r: i64)
    ensures
        r == spec_fx_div(a as int, b as int),
{
    if b == 0 {
        if a > 0 {
            i64::MAX
        } else if a < 0 {
            i64::MIN
        } else {
            0
        }
    } else {
        proof {
            assert(-0x4000_0000_0000_0000_0000_0000_0000_0000 <= (a as int) * (FX_ONE as int)
                <= 0x4000_0000_0000_0000_0000_0000_0000_0000) by (nonlinear_arith)
                requires
                    i64::MIN <= a <= i64::MAX,
            ;
        }
        let n: i128 = (a as i128) * (FX_ONE as i128);
        proof {
            lemma_trunc_div_bound(n as int, b as int);
        }
        let q: i128 = n.checked_div(b as i128).unwrap();
        if q > i64::MAX as i128 {
            i64::MAX
        } else if q < i64::MIN as i128 {
            i64::MIN
        } else {
            q as i64
        }
    }
}

/// Linear blend `a * (1 - f) + b * f`, with the factor first clamped into
/// `[0, 1]`, each step saturating.
pub open spec fn spec_fx_mix(a: int, b: int, f: int) -> int {
    let fc = spec_fx_clamp(f, 0, FX_ONE as int);
    spec_fx_add(spec_fx_mul(a, FX_ONE - fc), spec_fx_mul(b, fc))
}

pub fn fx_mix(a: i64, b: i64, f: i64) -> (r: i64)
    ensures
        r == spec_fx_mix(a as int, b as int, f as int),
{
    let fc = fx_clamp(f, 0, FX_ONE);
    fx_add(fx_mul(a, FX_ONE - fc), fx_mul(b, fc))
}

/// `1 - v`, saturating.
pub open spec fn spec_fx_one_minus(v: int) -> int {
    spec_fx_sub(FX_ONE as int, v)
}

pub fn fx_one_minus(v: i64) -> (r: i64)
    ensures
        r == spec_fx_one_minus(v as int),
{
    fx_sub(FX_ONE, v)
}

/// Linear remap of `v` from the range `[from_min, from_max]` into
/// `[to_min, to_max]`, without clamping the result.
pub open spec fn spec_fx_remap(v: int, from_min: int, from_max: int, to_min: int, to_max: int) -> int {
    let normalized = spec_fx_div(spec_fx_sub(v, from_min), spec_fx_sub(from_max, from_min));
    spec_fx_add(to_min, spec_fx_mul(normalized, spec_fx_sub(to_max, to_min)))
}

pub fn fx_remap(v: i64, from_min: i64, from_max: i64, to_min: i64, to_max: i64) -> (r: i64)
    ensures
        r == spec_fx_remap(v as int, from_min as int, from_max as int, to_min as int, to_max as int),
{
    let normalized = fx_div(fx_sub(v, from_min), fx_sub(from_max, from_min));
    fx_add(to_min, fx_mul(normalized, fx_sub(to_max, to_min)))
}

/// `base` raised to the natural power `k`, by squaring, each multiplication
/// saturating. The power of zero is one.
pub open spec fn spec_fx_pow_nat(base: int, k: nat) -> int
    decreases k,
{
    if k == 0 {
        FX_ONE as int
    } else if k % 2 == 0 {
        let h = spec_fx_pow_nat(base, k / 2);
        spec_fx_mul(h, h)
    } else {
        spec_fx_mul(base, spec_fx_pow_nat(base, (k - 1) as nat))
    }
}

fn fx_pow_nat(base: i64, k: u64) -> (r: i64)
    ensures
        r == spec_fx_pow_nat(base as int, k as nat),
    decreases k,
{
    if k == 0 {
        FX_ONE
    } else if k % 2 == 0 {
        let h = fx_pow_nat(base, k / 2);
        fx_mul(h, h)
    } else {
        fx_mul(base, fx_pow_nat(base, k - 1))
    }
}

/// The exponent a fixed-point value stands for, rounded to the nearest
/// integer, halves toward plus infinity.
pub open spec fn spec_fx_round(e: int) -> int {
    (e + FX_HALF) / (FX_ONE as int)
}

/// `base` raised to the fixed-point exponent `e`. The exponent is rounded
/// to the nearest integer; a negative exponent inverts the positive power.
pub open spec fn spec_fx_pow(base: int, e: int) -> int {
    let n = spec_fx_round(e);
    if n >= 0 {
        spec_fx_pow_nat(base, n as nat)
    } else {
        spec_fx_div(FX_ONE as int, spec_fx_pow_nat(base, (n * -1) as nat))
    }
}

/// The deterministic stand-in for the noise pattern: the scale halved and
/// wrapped into `[0, 1)`. No shading context reaches the graph, so the
/// noise node yields a fixed function of its scale alone.
pub open spec fn spec_fx_noise(scale: int) -> int {
    spec_fx_mul(scale, FX_HALF as int) % (FX_ONE as int)
}

pub fn fx_noise(scale: i64) -> (r: i64)
    ensures
        r == spec_fx_noise(scale as int),
{
    let t = fx_mul(scale, FX_HALF);
    t.checked_rem_euclid(FX_ONE).unwrap()
}

/// The normal-incidence reflectance of an index of refraction:
/// `((ior - 1) / (ior + 1))` squared.
pub open spec fn spec_fx_fresnel(ior: int) -> int {
    let t = spec_fx_div(spec_fx_sub(ior, FX_ONE as int), spec_fx_add(ior, FX_ONE as int));
    spec_fx_mul(t, t)
}

pub fn fx_fresnel(ior: i64) -> (r: i64)
    ensures
        r == spec_fx_fresnel(ior as int),
{
    let t = fx_div(fx_sub(ior, FX_ONE), fx_add(ior, FX_ONE));
    fx_mul(t, t)
}

pub fn fx_pow(base: i64, e: i64) -> (r: i64)
    ensures
        r == spec_fx_pow(base as int, e as int),
{
    let t: i128 = e as i128 + FX_HALF as i128;
    proof {
        vstd::arithmetic::div_mod::lemma_fundamental_div_mod(t as int, FX_ONE as int);
        vstd::arithmetic::div_mod::lemma_mod_division_less_than_divisor(t as int, FX_ONE as int);
    }
    let n: i128 = t.checked_div_euclid(FX_ONE as i128).unwrap();
    if n >= 0 {
        fx_pow_nat(base, n as u64)
    } else {
        fx_div(FX_ONE, fx_pow_nat(base, (-n) as u64))
    }
}

} // verus!


