//! Signed 16.16 fixed-point arithmetic.
//!
//! A value `v` stands for the real number `v / 65536`. Multiplication and
//! division truncate toward zero, mirroring a narrowing numeric cast, and
//! every operation saturates at `FX_SAT` so that all kernels are total and
//! free of overflow.

use vstd::prelude::*;

verus! {

/// The fixed-point representation of 1.
pub const FX_ONE: i64 = 65536;

/// The fixed-point representation of 1/2.
pub const FX_HALF: i64 = 32768;

/// Saturation bound of every fixed-point operation (2^56). Keeping results
/// within this bound leaves headroom so that short sums of results never
/// overflow an `i64`.
pub const FX_SAT: i64 = 0x100_0000_0000_0000;

/// Clamps a mathematical integer into the saturation range.
pub open spec fn fx_sat(v: int) -> int {
    if v > FX_SAT as int {
        FX_SAT as int
    } else if v < -(FX_SAT as int) {
        -(FX_SAT as int)
    } else {
        v
    }
}

/// Division truncated toward zero, as the hardware `/` behaves.
/// (The spec-level `/` is Euclidean, so the signs are split out by hand.)
pub open spec fn fx_trunc_div(a: int, b: int) -> int {
    let aa = if b < 0 { -a } else { a };
    let bb = if b < 0 { -b } else { b };
    if aa >= 0 {
        aa / bb
    } else {
        -((-aa) / bb)
    }
}

/// Fixed-point product: truncate `a * b / 65536` toward zero, then saturate.
pub open spec fn fx_mul(a: int, b: int) -> int {
    fx_sat(fx_trunc_div(a * b, FX_ONE as int))
}

/// Fixed-point quotient: truncate `a * 65536 / b` toward zero, then saturate.
/// Unspecified divisors are never passed: executable code guards `b != 0`.
pub open spec fn fx_div(a: int, b: int) -> int {
    fx_sat(fx_trunc_div(a * (FX_ONE as int), b))
}

/// Bound met by every easing result: two powers of two above the
/// saturation bound, leaving room for the short sums that produce it.
pub open spec fn eased_bounded(r: int) -> bool {
    -0x400_0000_0000_0000 <= r <= 0x400_0000_0000_0000
}

/// Bound on scaling factors fed to the value algebra.
pub open spec fn fx_bounded(v: int) -> bool {
    -0x1000_0000_0000_0000 <= v <= 0x1000_0000_0000_0000
}

/// Clamp into the unit interval `[0, FX_ONE]`.
pub open spec fn fx_clamp01(v: int) -> int {
    if v < 0 {
        0
    } else if v > FX_ONE as int {
        FX_ONE as int
    } else {
        v
    }
}

pub(crate) fn sat_i128(v: i128) -> (r: i64)
    ensures
        r as int == fx_sat(v as int),
{
    if v > FX_SAT as i128 {
        FX_SAT
    } else if v < -(FX_SAT as i128) {
        -FX_SAT
    } else {
        v as i64
    }
}

pub(crate) fn trunc_div_i128(a: i128, b: i128) -> (r: i128)
    requires
        b != 0,
        -0x4000_0000_0000_0000_0000_0000_0000_0000 <= a
            <= 0x4000_0000_0000_0000_0000_0000_0000_0000,
        -0x4000_0000_0000_0000_0000_0000_0000_0000 <= b
            <= 0x4000_0000_0000_0000_0000_0000_0000_0000,
    ensures
        r as int == fx_trunc_div(a as int, b as int),
{
    let ua: u128 = if a < 0 {
        (-a) as u128
    } else {
        a as u128
    };
    let ub: u128 = if b < 0 {
        (-b) as u128
    } else {
        b as u128
    };
    let q: u128 = ua / ub;
    if (a < 0) != (b < 0) {
        -(q as i128)
    } else {
        q as i128
    }
}

/// Fixed-point multiplication, truncating toward zero and saturating.
pub fn mul_fx(a: i64, b: i64) -> (r: i64)
    ensures
        r as int == fx_mul(a as int, b as int),
        -FX_SAT <= r <= FX_SAT,
{
    proof {
        assert((a as int) * (b as int) <= 0x4000_0000_0000_0000_0000_0000_0000_0000
            && -0x4000_0000_0000_0000_0000_0000_0000_0000 <= (a as int) * (b as int))
            by (nonlinear_arith)
            requires
                -0x8000_0000_0000_0000 <= a as int <= 0x7fff_ffff_ffff_ffff,
                -0x8000_0000_0000_0000 <= b as int <= 0x7fff_ffff_ffff_ffff,
        ;
    }
    let p: i128 = (a as i128) * (b as i128);
    sat_i128(trunc_div_i128(p, FX_ONE as i128))
}

/// Fixed-point division, truncating toward zero and saturating.
pub fn div_fx(a: i64, b: i64) -> (r: i64)
    requires
        b != 0,
    ensures
        r as int == fx_div(a as int, b as int),
        -FX_SAT <= r <= FX_SAT,
{
    proof {
        assert((a as int) * (FX_ONE as int) <= 0x4000_0000_0000_0000_0000_0000_0000_0000
            && -0x4000_0000_0000_0000_0000_0000_0000_0000 <= (a as int) * (FX_ONE as int))
            by (nonlinear_arith)
            requires
                -0x8000_0000_0000_0000 <= a as int <= 0x7fff_ffff_ffff_ffff,
        ;
    }
    let p: i128 = (a as i128) * (FX_ONE as i128);
    sat_i128(trunc_div_i128(p, b as i128))
}

/// Halving truncated toward zero.
pub open spec fn fx_half(v: int) -> int {
    fx_trunc_div(v, 2)
}

/// Halves a value, truncating toward zero.
pub fn half_fx(v: i64) -> (r: i64)
    requires
        -0x7fff_ffff_ffff_ffff <= v,
    ensures
        r as int == fx_half(v as int),
        v >= 0 ==> 0 <= r <= v,
        v < 0 ==> v <= r <= 0,
{
    if v >= 0 {
        v / 2
    } else {
        -((-v) / 2)
    }
}

/// Clamp a progress value into `[0, FX_ONE]`.
pub fn clamp01(v: i64) -> (r: i64)
    ensures
        r as int == fx_clamp01(v as int),
{
    if v < 0 {
        0
    } else if v > FX_ONE {
        FX_ONE
    } else {
        v
    }
}

/// Multiplying by the fixed-point 1 is exact within the saturation range.
pub proof fn lemma_fx_mul_one(a: int)
    requires
        -(FX_SAT as int) <= a <= FX_SAT as int,
    ensures
        fx_mul(a, FX_ONE as int) == a,
{
    assert(fx_trunc_div(a * 65536, 65536) == a) by (nonlinear_arith);
}

/// A fixed-point product of factors with a bounded integer product is itself
/// bounded: `a * b <= c * 65536` gives `fx_mul(a, b) <= c`.
pub proof fn lemma_fx_mul_le(a: int, b: int, c: int)
    requires
        0 <= a * b,
        a * b <= c * (FX_ONE as int),
        0 <= c <= FX_SAT as int,
    ensures
        0 <= fx_mul(a, b) <= c,
{
    assert(0 <= (a * b) / 65536 <= c) by (nonlinear_arith)
        requires
            0 <= a * b,
            a * b <= c * 65536,
    ;
}

/// Scaling a nonnegative value by a factor in the unit interval never
/// enlarges it.
pub proof fn lemma_fx_mul_unit_le(a: int, b: int)
    requires
        0 <= a <= FX_ONE as int,
        0 <= b <= FX_SAT as int,
    ensures
        0 <= fx_mul(a, b) <= b,
{
    assert(0 <= a * b && a * b <= b * 65536) by (nonlinear_arith)
        requires
            0 <= a <= 65536,
            0 <= b,
    ;
    assert(0 <= (a * b) / 65536 <= b) by (nonlinear_arith)
        requires
            0 <= a * b,
            a * b <= b * 65536,
    ;
}

/// A fixed-point quotient of a numerator no larger than its (positive)
/// denominator stays within the unit interval.
pub proof fn lemma_fx_div_le(a: int, b: int)
    requires
        0 <= a <= b,
        0 < b,
    ensures
        0 <= fx_div(a, b) <= FX_ONE as int,
{
    assert(0 <= (a * 65536) / b <= 65536) by (nonlinear_arith)
        requires
            0 <= a <= b,
            0 < b,
    ;
}

/// Multiplying by zero is exactly zero.
pub proof fn lemma_fx_mul_zero(a: int)
    ensures
        fx_mul(a, 0) == 0,
        fx_mul(0, a) == 0,
{
    assert(a * 0 == 0) by (nonlinear_arith);
    assert(0 * a == 0) by (nonlinear_arith);
}

} // verus!

