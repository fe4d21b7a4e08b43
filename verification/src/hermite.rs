//! Cubic Hermite basis evaluation for fixed-point scalars.

use vstd::prelude::*;
use crate::fixed::{FX_ONE, FX_SAT, fx_mul, fx_sat, fx_trunc_div, mul_fx, sat_i128,
    trunc_div_i128};

verus! {

/// Basis weight `h00 = 2t^3 - 3t^2 + 1` (in fixed point).
pub open spec fn spec_hermite_part1(squared: int, cubed: int) -> int {
    2 * cubed - 3 * squared + FX_ONE as int
}

/// Basis weight `h01 = -2t^3 + 3t^2` (in fixed point).
pub open spec fn spec_hermite_part2(squared: int, cubed: int) -> int {
    -2 * cubed + 3 * squared
}

/// Basis weight `h10 = t^3 - 2t^2 + t` (in fixed point).
pub open spec fn spec_hermite_part3(amount: int, squared: int, cubed: int) -> int {
    cubed - 2 * squared + amount
}

/// Basis weight `h11 = t^3 - t^2` (in fixed point).
pub open spec fn spec_hermite_part4(squared: int, cubed: int) -> int {
    cubed - squared
}

/// The Hermite blend `v1*h00 + v2*h01 + m1*h10 + m2*h11`, accumulated at
/// full width and quantized by a single truncating division.
pub open spec fn spec_hermite(value1: int, tangent1: int, value2: int, tangent2: int,
    amount: int) -> int {
    let squared = fx_mul(amount, amount);
    let cubed = fx_mul(amount, squared);
    let part1 = spec_hermite_part1(squared, cubed);
    let part2 = spec_hermite_part2(squared, cubed);
    let part3 = spec_hermite_part3(amount, squared, cubed);
    let part4 = spec_hermite_part4(squared, cubed);
    fx_sat(fx_trunc_div(
        value1 * part1 + value2 * part2 + tangent1 * part3 + tangent2 * part4,
        FX_ONE as int,
    ))
}

/// Evaluates the cubic Hermite basis at `amount`, blending the two endpoint
/// values with the two tangents. The four weighted terms are summed before
/// the one fixed-point quantization, so a constant curve stays constant.
pub fn hermite(value1: i64, tangent1: i64, value2: i64, tangent2: i64, amount: i64) -> (r: i64)
    requires
        -FX_SAT <= amount <= FX_SAT,
    ensures
        r as int == spec_hermite(value1 as int, tangent1 as int, value2 as int,
            tangent2 as int, amount as int),
        -FX_SAT <= r <= FX_SAT,
{
    let squared: i64 = mul_fx(amount, amount);
    let cubed: i64 = mul_fx(amount, squared);
    let part1: i64 = 2 * cubed - 3 * squared + FX_ONE;
    let part2: i64 = 3 * squared - 2 * cubed;
    let part3: i64 = cubed - 2 * squared + amount;
    let part4: i64 = cubed - squared;
    proof {
        lemma_wide_product_bound(value1 as int, part1 as int);
        lemma_wide_product_bound(value2 as int, part2 as int);
        lemma_wide_product_bound(tangent1 as int, part3 as int);
        lemma_wide_product_bound(tangent2 as int, part4 as int);
    }
    let sum: i128 = (value1 as i128) * (part1 as i128) + (value2 as i128) * (part2 as i128)
        + (tangent1 as i128) * (part3 as i128) + (tangent2 as i128) * (part4 as i128);
    sat_i128(trunc_div_i128(sum, FX_ONE as i128))
}

proof fn lemma_wide_product_bound(v: int, p: int)
    requires
        -0x8000_0000_0000_0000 <= v <= 0x7fff_ffff_ffff_ffff,
        -0x2000_0000_0000_0000 <= p <= 0x2000_0000_0000_0000,
    ensures
        -0x1000_0000_0000_0000_0000_0000_0000_0000 <= v * p
            <= 0x1000_0000_0000_0000_0000_0000_0000_0000,
{
    assert(-0x1000_0000_0000_0000_0000_0000_0000_0000 <= v * p
        <= 0x1000_0000_0000_0000_0000_0000_0000_0000) by (nonlinear_arith)
        requires
            -0x8000_0000_0000_0000 <= v <= 0x7fff_ffff_ffff_ffff,
            -0x2000_0000_0000_0000 <= p <= 0x2000_0000_0000_0000,
    ;
}

/// A constant curve is invariant under Hermite blending: with equal endpoint
/// values and zero tangents the blend returns the value exactly, for every
/// progress `amount`.
pub proof fn lemma_hermite_constant(value: int, amount: int)
    requires
        -(FX_SAT as int) <= value <= FX_SAT as int,
    ensures
        spec_hermite(value, 0, value, 0, amount) == value,
{
    let squared = fx_mul(amount, amount);
    let cubed = fx_mul(amount, squared);
    let part1 = spec_hermite_part1(squared, cubed);
    let part2 = spec_hermite_part2(squared, cubed);
    let part3 = spec_hermite_part3(amount, squared, cubed);
    let part4 = spec_hermite_part4(squared, cubed);
    assert(part1 + part2 == FX_ONE as int);
    assert(0 * part3 == 0) by (nonlinear_arith);
    assert(0 * part4 == 0) by (nonlinear_arith);
    assert(value * part1 + value * part2 == value * 65536) by (nonlinear_arith)
        requires
            part1 + part2 == 65536,
    ;
    assert(fx_trunc_div(value * 65536, 65536) == value) by (nonlinear_arith);
}

} // verus!
