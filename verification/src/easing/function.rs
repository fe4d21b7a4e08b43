//! The named easing functions, after <https://easings.net>.
//!
//! Every function maps a fixed-point progress in `[0, FX_ONE]` to a remapped
//! progress; the overshooting families (back, elastic) may leave the unit
//! interval in the interior, but each family is exactly 0 at 0 and exactly
//! `FX_ONE` at `FX_ONE` (see [`lemma_easing_endpoints`]).

use vstd::prelude::*;
use crate::fixed::{FX_ONE, FX_HALF, fx_mul, fx_half, mul_fx, half_fx,
    lemma_fx_mul_unit_le, eased_bounded};
use crate::easing::EEasingMode;
use crate::easing::approx::{fx_sqrt, sqrt_fx, spec_sinp, sinp, spec_sin_turns, sin_turns,
    spec_exp2, exp2_fx, lemma_sqrt_floor};

verus! {

/// Back-family overshoot constant, 1.70158 in fixed point.
pub const BACK_C1: i64 = 111515;

/// Back-family InOut overshoot constant, 1.70158 * 1.525 in fixed point.
pub const BACK_C2: i64 = 170060;

/// Bounce-family parabola steepness, 7.5625 in fixed point.
pub const BOUNCE_N1: i64 = 495616;

/// Bounce-family arch offsets 6/11, 9/11 and 21/22 in fixed point.
pub const BOUNCE_B1: i64 = 35746;

pub const BOUNCE_B2: i64 = 53620;

pub const BOUNCE_B3: i64 = 62557;

/// Elastic phase offsets 10.75, 0.75 and 11.125 in fixed point.
pub const ELASTIC_T1: i64 = 704512;

pub const ELASTIC_T2: i64 = 49152;

pub const ELASTIC_T3: i64 = 729088;

pub open spec fn spec_linear_in(x: int) -> int {
    x
}

/// Identity remap.
pub fn linear_in(x: i64) -> (r: i64)
    requires
        0 <= x <= FX_ONE,
    ensures
        r as int == spec_linear_in(x as int),
        eased_bounded(r as int),
{
    x
}

pub open spec fn spec_quad_in(x: int) -> int {
    fx_mul(x, x)
}

/// `x^2`.
pub fn quad_in(x: i64) -> (r: i64)
    requires
        0 <= x <= FX_ONE,
    ensures
        r as int == spec_quad_in(x as int),
        0 <= r <= FX_ONE,
{
    proof {
        lemma_fx_mul_unit_le(x as int, x as int);
    }
    mul_fx(x, x)
}

pub open spec fn spec_quad_out(x: int) -> int {
    FX_ONE as int - spec_quad_in(FX_ONE as int - x)
}

/// `1 - (1 - x)^2`.
pub fn quad_out(x: i64) -> (r: i64)
    requires
        0 <= x <= FX_ONE,
    ensures
        r as int == spec_quad_out(x as int),
        eased_bounded(r as int),
{
    FX_ONE - quad_in(FX_ONE - x)
}

pub open spec fn spec_quad_in_out(x: int) -> int {
    if x < FX_HALF as int {
        2 * spec_quad_in(x)
    } else {
        FX_ONE as int - fx_half(spec_quad_in(2 * (FX_ONE as int - x)))
    }
}

/// The In form scaled into the first half, mirrored into the second.
pub fn quad_in_out(x: i64) -> (r: i64)
    requires
        0 <= x <= FX_ONE,
    ensures
        r as int == spec_quad_in_out(x as int),
        eased_bounded(r as int),
{
    if x < FX_HALF {
        2 * quad_in(x)
    } else {
        FX_ONE - half_fx(quad_in(2 * (FX_ONE - x)))
    }
}

pub open spec fn spec_cubic_in(x: int) -> int {
    fx_mul(x, fx_mul(x, x))
}

/// `x^3`.
pub fn cubic_in(x: i64) -> (r: i64)
    requires
        0 <= x <= FX_ONE,
    ensures
        r as int == spec_cubic_in(x as int),
        0 <= r <= FX_ONE,
{
    proof {
        lemma_fx_mul_unit_le(x as int, x as int);
        lemma_fx_mul_unit_le(x as int, fx_mul(x as int, x as int));
    }
    mul_fx(x, mul_fx(x, x))
}

pub open spec fn spec_cubic_out(x: int) -> int {
    FX_ONE as int - spec_cubic_in(FX_ONE as int - x)
}

/// `1 - (1 - x)^3`.
pub fn cubic_out(x: i64) -> (r: i64)
    requires
        0 <= x <= FX_ONE,
    ensures
        r as int == spec_cubic_out(x as int),
        eased_bounded(r as int),
{
    FX_ONE - cubic_in(FX_ONE - x)
}

pub open spec fn spec_cubic_in_out(x: int) -> int {
    if x < FX_HALF as int {
        fx_half(spec_cubic_in(2 * x))
    } else {
        FX_ONE as int - fx_half(spec_cubic_in(2 * (FX_ONE as int - x)))
    }
}

/// The In form scaled into the first half, mirrored into the second.
pub fn cubic_in_out(x: i64) -> (r: i64)
    requires
        0 <= x <= FX_ONE,
    ensures
        r as int == spec_cubic_in_out(x as int),
        eased_bounded(r as int),
{
    if x < FX_HALF {
        half_fx(cubic_in(2 * x))
    } else {
        FX_ONE - half_fx(cubic_in(2 * (FX_ONE - x)))
    }
}

pub open spec fn spec_quart_in(x: int) -> int {
    let xx = fx_mul(x, x);
    fx_mul(xx, xx)
}

/// `x^4`.
pub fn quart_in(x: i64) -> (r: i64)
    requires
        0 <= x <= FX_ONE,
    ensures
        r as int == spec_quart_in(x as int),
        0 <= r <= FX_ONE,
{
    let xx = mul_fx(x, x);
    proof {
        lemma_fx_mul_unit_le(x as int, x as int);
        lemma_fx_mul_unit_le(xx as int, xx as int);
    }
    mul_fx(xx, xx)
}

pub open spec fn spec_quart_out(x: int) -> int {
    FX_ONE as int - spec_quart_in(FX_ONE as int - x)
}

/// `1 - (1 - x)^4`.
pub fn quart_out(x: i64) -> (r: i64)
    requires
        0 <= x <= FX_ONE,
    ensures
        r as int == spec_quart_out(x as int),
        eased_bounded(r as int),
{
    FX_ONE - quart_in(FX_ONE - x)
}

pub open spec fn spec_quart_in_out(x: int) -> int {
    if x < FX_HALF as int {
        8 * spec_quart_in(x)
    } else {
        FX_ONE as int - fx_half(spec_quart_in(2 * (FX_ONE as int - x)))
    }
}

/// The In form scaled into the first half, mirrored into the second.
pub fn quart_in_out(x: i64) -> (r: i64)
    requires
        0 <= x <= FX_ONE,
    ensures
        r as int == spec_quart_in_out(x as int),
        eased_bounded(r as int),
{
    if x < FX_HALF {
        8 * quart_in(x)
    } else {
        FX_ONE - half_fx(quart_in(2 * (FX_ONE - x)))
    }
}

pub open spec fn spec_quint_in(x: int) -> int {
    let xx = fx_mul(x, x);
    fx_mul(fx_mul(xx, xx), x)
}

/// `x^5`.
pub fn quint_in(x: i64) -> (r: i64)
    requires
        0 <= x <= FX_ONE,
    ensures
        r as int == spec_quint_in(x as int),
        0 <= r <= FX_ONE,
{
    let xx = mul_fx(x, x);
    proof {
        lemma_fx_mul_unit_le(x as int, x as int);
        lemma_fx_mul_unit_le(xx as int, xx as int);
    }
    let x4 = mul_fx(xx, xx);
    proof {
        lemma_fx_mul_unit_le(x4 as int, x as int);
    }
    mul_fx(x4, x)
}

pub open spec fn spec_quint_out(x: int) -> int {
    FX_ONE as int - spec_quint_in(FX_ONE as int - x)
}

/// `1 - (1 - x)^5`.
pub fn quint_out(x: i64) -> (r: i64)
    requires
        0 <= x <= FX_ONE,
    ensures
        r as int == spec_quint_out(x as int),
        eased_bounded(r as int),
{
    FX_ONE - quint_in(FX_ONE - x)
}

pub open spec fn spec_quint_in_out(x: int) -> int {
    if x < FX_HALF as int {
        16 * spec_quint_in(x)
    } else {
        FX_ONE as int - fx_half(spec_quint_in(2 * (FX_ONE as int - x)))
    }
}

/// The In form scaled into the first half, mirrored into the second.
pub fn quint_in_out(x: i64) -> (r: i64)
    requires
        0 <= x <= FX_ONE,
    ensures
        r as int == spec_quint_in_out(x as int),
        eased_bounded(r as int),
{
    if x < FX_HALF {
        16 * quint_in(x)
    } else {
        FX_ONE - half_fx(quint_in(2 * (FX_ONE - x)))
    }
}

pub open spec fn spec_back_in(x: int) -> int {
    let xx = fx_mul(x, x);
    fx_mul(fx_mul(BACK_C1 as int + FX_ONE as int, x), xx) - fx_mul(BACK_C1 as int, xx)
}

/// Pulls back below zero before accelerating: `(c1+1) x^3 - c1 x^2`.
pub fn back_in(x: i64) -> (r: i64)
    requires
        0 <= x <= FX_ONE,
    ensures
        r as int == spec_back_in(x as int),
        eased_bounded(r as int),
{
    let xx = mul_fx(x, x);
    mul_fx(mul_fx(BACK_C1 + FX_ONE, x), xx) - mul_fx(BACK_C1, xx)
}

pub open spec fn spec_back_out(x: int) -> int {
    let temp = x - FX_ONE as int;
    let sq = fx_mul(temp, temp);
    let cube = fx_mul(sq, temp);
    FX_ONE as int + fx_mul(BACK_C1 as int + FX_ONE as int, cube) + fx_mul(BACK_C1 as int, sq)
}

/// Overshoots past one before settling: `1 + (c1+1)(x-1)^3 + c1 (x-1)^2`.
pub fn back_out(x: i64) -> (r: i64)
    requires
        0 <= x <= FX_ONE,
    ensures
        r as int == spec_back_out(x as int),
        eased_bounded(r as int),
{
    let temp = x - FX_ONE;
    let sq = mul_fx(temp, temp);
    let cube = mul_fx(sq, temp);
    FX_ONE + mul_fx(BACK_C1 + FX_ONE, cube) + mul_fx(BACK_C1, sq)
}

pub open spec fn spec_back_in_out(x: int) -> int {
    let tx = 2 * x;
    if x < FX_HALF as int {
        fx_half(fx_mul(fx_mul(tx, tx), fx_mul(BACK_C2 as int + FX_ONE as int, tx) - BACK_C2 as int))
    } else {
        let u = tx - 2 * FX_ONE as int;
        fx_half(
            fx_mul(fx_mul(u, u), fx_mul(BACK_C2 as int + FX_ONE as int, u) + BACK_C2 as int) + 2
                * FX_ONE as int,
        )
    }
}

/// The back overshoot applied at both ends.
pub fn back_in_out(x: i64) -> (r: i64)
    requires
        0 <= x <= FX_ONE,
    ensures
        r as int == spec_back_in_out(x as int),
        eased_bounded(r as int),
{
    let tx = 2 * x;
    if x < FX_HALF {
        half_fx(mul_fx(mul_fx(tx, tx), mul_fx(BACK_C2 + FX_ONE, tx) - BACK_C2))
    } else {
        let u = tx - 2 * FX_ONE;
        half_fx(mul_fx(mul_fx(u, u), mul_fx(BACK_C2 + FX_ONE, u) + BACK_C2) + 2 * FX_ONE)
    }
}

pub open spec fn spec_bounce_out(x: int) -> int {
    if x == FX_ONE as int {
        FX_ONE as int
    } else if 11 * x < 4 * FX_ONE as int {
        fx_mul(fx_mul(BOUNCE_N1 as int, x), x)
    } else if 11 * x < 8 * FX_ONE as int {
        let t = x - BOUNCE_B1 as int;
        fx_mul(fx_mul(BOUNCE_N1 as int, t), t) + 49152
    } else if 11 * x < 10 * FX_ONE as int {
        let t = x - BOUNCE_B2 as int;
        fx_mul(fx_mul(BOUNCE_N1 as int, t), t) + 61440
    } else {
        let t = x - BOUNCE_B3 as int;
        fx_mul(fx_mul(BOUNCE_N1 as int, t), t) + 64512
    }
}

/// Four parabolic arches of diminishing height; the right endpoint is
/// anchored exactly, where the truncated arch constants would land one
/// quantum short.
pub fn bounce_out(x: i64) -> (r: i64)
    requires
        0 <= x <= FX_ONE,
    ensures
        r as int == spec_bounce_out(x as int),
        eased_bounded(r as int),
{
    if x == FX_ONE {
        FX_ONE
    } else if 11 * x < 4 * FX_ONE {
        mul_fx(mul_fx(BOUNCE_N1, x), x)
    } else if 11 * x < 8 * FX_ONE {
        let t = x - BOUNCE_B1;
        mul_fx(mul_fx(BOUNCE_N1, t), t) + 49152
    } else if 11 * x < 10 * FX_ONE {
        let t = x - BOUNCE_B2;
        mul_fx(mul_fx(BOUNCE_N1, t), t) + 61440
    } else {
        let t = x - BOUNCE_B3;
        mul_fx(mul_fx(BOUNCE_N1, t), t) + 64512
    }
}

pub open spec fn spec_bounce_in(x: int) -> int {
    FX_ONE as int - spec_bounce_out(FX_ONE as int - x)
}

/// The bounce played backwards.
pub fn bounce_in(x: i64) -> (r: i64)
    requires
        0 <= x <= FX_ONE,
    ensures
        r as int == spec_bounce_in(x as int),
        eased_bounded(r as int),
{
    FX_ONE - bounce_out(FX_ONE - x)
}

pub open spec fn spec_bounce_in_out(x: int) -> int {
    if x < FX_HALF as int {
        fx_half(FX_ONE as int - spec_bounce_out(FX_ONE as int - 2 * x))
    } else {
        fx_half(FX_ONE as int + spec_bounce_out(2 * x - FX_ONE as int))
    }
}

/// Bounce in, then bounce out.
pub fn bounce_in_out(x: i64) -> (r: i64)
    requires
        0 <= x <= FX_ONE,
    ensures
        r as int == spec_bounce_in_out(x as int),
        eased_bounded(r as int),
{
    if x < FX_HALF {
        half_fx(FX_ONE - bounce_out(FX_ONE - 2 * x))
    } else {
        half_fx(FX_ONE + bounce_out(2 * x - FX_ONE))
    }
}

pub open spec fn spec_circle_in(x: int) -> int {
    FX_ONE as int - fx_sqrt(FX_ONE as int - fx_mul(x, x))
}

/// `1 - sqrt(1 - x^2)`.
pub fn circle_in(x: i64) -> (r: i64)
    requires
        0 <= x <= FX_ONE,
    ensures
        r as int == spec_circle_in(x as int),
        eased_bounded(r as int),
{
    proof {
        lemma_fx_mul_unit_le(x as int, x as int);
    }
    let s = sqrt_fx(FX_ONE - mul_fx(x, x));
    FX_ONE - s
}

pub open spec fn spec_circle_out(x: int) -> int {
    let u = FX_ONE as int - x;
    fx_sqrt(FX_ONE as int - fx_mul(u, u))
}

/// `sqrt(1 - (1 - x)^2)`.
pub fn circle_out(x: i64) -> (r: i64)
    requires
        0 <= x <= FX_ONE,
    ensures
        r as int == spec_circle_out(x as int),
        eased_bounded(r as int),
{
    let u = FX_ONE - x;
    proof {
        lemma_fx_mul_unit_le(u as int, u as int);
    }
    sqrt_fx(FX_ONE - mul_fx(u, u))
}

pub open spec fn spec_circle_in_out(x: int) -> int {
    if x < FX_HALF as int {
        fx_half(spec_circle_in(2 * x))
    } else {
        let u = 2 * FX_ONE as int - 2 * x;
        fx_half(fx_sqrt(FX_ONE as int - fx_mul(u, u)) + FX_ONE as int)
    }
}

/// The circular form applied at both ends.
pub fn circle_in_out(x: i64) -> (r: i64)
    requires
        0 <= x <= FX_ONE,
    ensures
        r as int == spec_circle_in_out(x as int),
        eased_bounded(r as int),
{
    if x < FX_HALF {
        half_fx(circle_in(2 * x))
    } else {
        let u = 2 * FX_ONE - 2 * x;
        proof {
            lemma_fx_mul_unit_le(u as int, u as int);
        }
        half_fx(sqrt_fx(FX_ONE - mul_fx(u, u)) + FX_ONE)
    }
}

pub open spec fn spec_sine_in(x: int) -> int {
    FX_ONE as int - spec_sinp((FX_ONE as int - x) / 2)
}

/// `1 - cos(pi x / 2)`.
pub fn sine_in(x: i64) -> (r: i64)
    requires
        0 <= x <= FX_ONE,
    ensures
        r as int == spec_sine_in(x as int),
        eased_bounded(r as int),
{
    FX_ONE - sinp((FX_ONE - x) / 2)
}

pub open spec fn spec_sine_out(x: int) -> int {
    spec_sinp(x / 2)
}

/// `sin(pi x / 2)`.
pub fn sine_out(x: i64) -> (r: i64)
    requires
        0 <= x <= FX_ONE,
    ensures
        r as int == spec_sine_out(x as int),
        eased_bounded(r as int),
{
    sinp(x / 2)
}

pub open spec fn spec_sine_in_out(x: int) -> int {
    if x <= FX_HALF as int {
        (FX_ONE as int - spec_sinp(FX_HALF as int - x)) / 2
    } else {
        (FX_ONE as int + spec_sinp(x - FX_HALF as int)) / 2
    }
}

/// `(1 - cos(pi x)) / 2`.
pub fn sine_in_out(x: i64) -> (r: i64)
    requires
        0 <= x <= FX_ONE,
    ensures
        r as int == spec_sine_in_out(x as int),
        eased_bounded(r as int),
{
    if x <= FX_HALF {
        (FX_ONE - sinp(FX_HALF - x)) / 2
    } else {
        (FX_ONE + sinp(x - FX_HALF)) / 2
    }
}

pub open spec fn spec_expo_in(x: int) -> int {
    if x == 0 {
        0
    } else {
        spec_exp2(10 * x - 10 * FX_ONE as int)
    }
}

/// `2^(10x - 10)`, with the exact zero anchored.
pub fn expo_in(x: i64) -> (r: i64)
    requires
        0 <= x <= FX_ONE,
    ensures
        r as int == spec_expo_in(x as int),
        eased_bounded(r as int),
{
    if x == 0 {
        0
    } else {
        exp2_fx(10 * x - 10 * FX_ONE)
    }
}

pub open spec fn spec_expo_out(x: int) -> int {
    if x == FX_ONE as int {
        FX_ONE as int
    } else {
        FX_ONE as int - spec_exp2(-10 * x)
    }
}

/// `1 - 2^(-10x)`, with the exact one anchored.
pub fn expo_out(x: i64) -> (r: i64)
    requires
        0 <= x <= FX_ONE,
    ensures
        r as int == spec_expo_out(x as int),
        eased_bounded(r as int),
{
    if x == FX_ONE {
        FX_ONE
    } else {
        let e = 10 * x;
        FX_ONE - exp2_fx(-e)
    }
}

pub open spec fn spec_expo_in_out(x: int) -> int {
    if x == 0 {
        0
    } else if x == FX_ONE as int {
        FX_ONE as int
    } else if x < FX_HALF as int {
        fx_half(spec_exp2(20 * x - 10 * FX_ONE as int))
    } else {
        FX_ONE as int - fx_half(spec_exp2(-20 * x + 10 * FX_ONE as int))
    }
}

/// The exponential form applied at both ends.
pub fn expo_in_out(x: i64) -> (r: i64)
    requires
        0 <= x <= FX_ONE,
    ensures
        r as int == spec_expo_in_out(x as int),
        eased_bounded(r as int),
{
    if x == 0 {
        0
    } else if x == FX_ONE {
        FX_ONE
    } else if x < FX_HALF {
        half_fx(exp2_fx(20 * x - 10 * FX_ONE))
    } else {
        let e = 20 * x - 10 * FX_ONE;
        FX_ONE - half_fx(exp2_fx(-e))
    }
}

pub open spec fn spec_elastic_in(x: int) -> int {
    if x == 0 {
        0
    } else if x == FX_ONE as int {
        FX_ONE as int
    } else {
        let u = crate::fixed::fx_trunc_div(10 * x - ELASTIC_T1 as int, 3);
        -fx_mul(spec_exp2(10 * x - 10 * FX_ONE as int), spec_sin_turns(u))
    }
}

/// A damped spring released toward the start:
/// `-2^(10x-10) * sin((10x - 10.75) * 2 pi / 3)`.
pub fn elastic_in(x: i64) -> (r: i64)
    requires
        0 <= x <= FX_ONE,
    ensures
        r as int == spec_elastic_in(x as int),
        eased_bounded(r as int),
{
    if x == 0 {
        0
    } else if x == FX_ONE {
        FX_ONE
    } else {
        let u = (10 * x - ELASTIC_T1) / 3;
        -mul_fx(exp2_fx(10 * x - 10 * FX_ONE), sin_turns(u))
    }
}

pub open spec fn spec_elastic_out(x: int) -> int {
    if x == 0 {
        0
    } else if x == FX_ONE as int {
        FX_ONE as int
    } else {
        let u = crate::fixed::fx_trunc_div(10 * x - ELASTIC_T2 as int, 3);
        fx_mul(spec_exp2(-10 * x), spec_sin_turns(u)) + FX_ONE as int
    }
}

/// A damped spring settling at the end:
/// `2^(-10x) * sin((10x - 0.75) * 2 pi / 3) + 1`.
pub fn elastic_out(x: i64) -> (r: i64)
    requires
        0 <= x <= FX_ONE,
    ensures
        r as int == spec_elastic_out(x as int),
        eased_bounded(r as int),
{
    if x == 0 {
        0
    } else if x == FX_ONE {
        FX_ONE
    } else {
        let u = (10 * x - ELASTIC_T2) / 3;
        let e = 10 * x;
        mul_fx(exp2_fx(-e), sin_turns(u)) + FX_ONE
    }
}

pub open spec fn spec_elastic_in_out(x: int) -> int {
    if x == 0 {
        0
    } else if x == FX_ONE as int {
        FX_ONE as int
    } else {
        let u = crate::fixed::fx_trunc_div(2 * (20 * x - ELASTIC_T3 as int), 9);
        if x < FX_HALF as int {
            -fx_half(fx_mul(spec_exp2(20 * x - 10 * FX_ONE as int), spec_sin_turns(u)))
        } else {
            fx_half(fx_mul(spec_exp2(-20 * x + 10 * FX_ONE as int), spec_sin_turns(u)))
                + FX_ONE as int
        }
    }
}

/// The spring wound up on the way in and released on the way out.
pub fn elastic_in_out(x: i64) -> (r: i64)
    requires
        0 <= x <= FX_ONE,
    ensures
        r as int == spec_elastic_in_out(x as int),
        eased_bounded(r as int),
{
    if x == 0 {
        0
    } else if x == FX_ONE {
        FX_ONE
    } else {
        let u = (2 * (20 * x - ELASTIC_T3)) / 9;
        if x < FX_HALF {
            -half_fx(mul_fx(exp2_fx(20 * x - 10 * FX_ONE), sin_turns(u)))
        } else {
            let e = 20 * x - 10 * FX_ONE;
            half_fx(mul_fx(exp2_fx(-e), sin_turns(u))) + FX_ONE
        }
    }
}

/// What [`easing_call`] computes for each mode.
pub open spec fn spec_easing(mode: EEasingMode, x: int) -> int {
    match mode {
        EEasingMode::Linear => spec_linear_in(x),
        EEasingMode::BackIn => spec_back_in(x),
        EEasingMode::BackOut => spec_back_out(x),
        EEasingMode::BackInOut => spec_back_in_out(x),
        EEasingMode::CircleIn => spec_circle_in(x),
        EEasingMode::CircleOut => spec_circle_out(x),
        EEasingMode::CircleInOut => spec_circle_in_out(x),
        EEasingMode::CubicIn => spec_cubic_in(x),
        EEasingMode::CubicOut => spec_cubic_out(x),
        EEasingMode::CubicInOut => spec_cubic_in_out(x),
        EEasingMode::SineIn => spec_sine_in(x),
        EEasingMode::SineOut => spec_sine_out(x),
        EEasingMode::SineInOut => spec_sine_in_out(x),
        EEasingMode::QuadIn => spec_quad_in(x),
        EEasingMode::QuadOut => spec_quad_out(x),
        EEasingMode::QuadInOut => spec_quad_in_out(x),
        EEasingMode::QuartIn => spec_quart_in(x),
        EEasingMode::QuartOut => spec_quart_out(x),
        EEasingMode::QuartInOut => spec_quart_in_out(x),
        EEasingMode::QuintIn => spec_quint_in(x),
        EEasingMode::QuintOut => spec_quint_out(x),
        EEasingMode::QuintInOut => spec_quint_in_out(x),
        EEasingMode::ExpoIn => spec_expo_in(x),
        EEasingMode::ExpoOut => spec_expo_out(x),
        EEasingMode::ExpoInOut => spec_expo_in_out(x),
        EEasingMode::ElasticIn => spec_elastic_in(x),
        EEasingMode::ElasticOut => spec_elastic_out(x),
        EEasingMode::ElasticInOut => spec_elastic_in_out(x),
        EEasingMode::BounceIn => spec_bounce_in(x),
        EEasingMode::BounceOut => spec_bounce_out(x),
        EEasingMode::BounceInOut => spec_bounce_in_out(x),
    }
}

/// The two sine values the sine family meets at its endpoints.
proof fn lemma_sinp_unit_values()
    ensures
        spec_sinp(0) == 0,
        spec_sinp(FX_HALF as int) == FX_ONE as int,
{
    assert(crate::fixed::fx_trunc_div(32768int * 32768int, 65536int) == 16384);
    let w = fx_mul(32768, 65536 - 32768);
    assert(w == 16384);
    assert(crate::fixed::fx_div(16 * w, 5 * 65536 - 4 * w) == 65536);
}

/// The two square-root values the circle family meets at its endpoints.
proof fn lemma_sqrt_unit_values()
    ensures
        fx_sqrt(FX_ONE as int) == FX_ONE as int,
        fx_sqrt(0) == 0,
{
    lemma_sqrt_floor(65536int * 65536int);
    let s = crate::easing::approx::sqrt_floor(65536int * 65536int);
    assert(s == 65536) by (nonlinear_arith)
        requires
            0 <= s,
            s * s <= 65536 * 65536,
            65536 * 65536 < (s + 1) * (s + 1),
    ;
    assert(crate::easing::approx::sqrt_floor(0) == 0);
}

/// Every easing family is exactly 0 at 0 and exactly 1 at 1; the overshoot
/// of the back and elastic families happens only in the interior.
#[verifier::rlimit(60)]
pub proof fn lemma_easing_endpoints(mode: EEasingMode)
    ensures
        spec_easing(mode, 0) == 0,
        spec_easing(mode, FX_ONE as int) == FX_ONE as int,
{
    lemma_sqrt_unit_values();
    lemma_sinp_unit_values();
    match mode {
        EEasingMode::Linear => {
        },
        EEasingMode::BackIn => {
            assert(spec_back_in(0) == 0);
            assert(spec_back_in(65536) == 65536);
        },
        EEasingMode::BackOut => {
            assert(spec_back_out(0) == 0);
            assert(spec_back_out(65536) == 65536);
        },
        EEasingMode::BackInOut => {
            assert(spec_back_in_out(0) == 0);
            assert(spec_back_in_out(65536) == 65536);
        },
        EEasingMode::CircleIn => {
            assert(spec_circle_in(0) == 0);
            assert(spec_circle_in(65536) == 65536);
        },
        EEasingMode::CircleOut => {
            assert(spec_circle_out(0) == 0);
            assert(spec_circle_out(65536) == 65536);
        },
        EEasingMode::CircleInOut => {
            assert(spec_circle_in_out(0) == 0);
            assert(spec_circle_in_out(65536) == 65536);
        },
        EEasingMode::CubicIn => {
            assert(spec_cubic_in(0) == 0);
            assert(spec_cubic_in(65536) == 65536);
        },
        EEasingMode::CubicOut => {
            assert(spec_cubic_out(0) == 0);
            assert(spec_cubic_out(65536) == 65536);
        },
        EEasingMode::CubicInOut => {
            assert(spec_cubic_in_out(0) == 0);
            assert(spec_cubic_in_out(65536) == 65536);
        },
        EEasingMode::SineIn => {
            assert(spec_sine_in(0) == 0);
            assert(spec_sine_in(65536) == 65536);
        },
        EEasingMode::SineOut => {
            assert(spec_sine_out(0) == 0);
            assert(spec_sine_out(65536) == 65536);
        },
        EEasingMode::SineInOut => {
            assert(spec_sine_in_out(0) == 0);
            assert(spec_sine_in_out(65536) == 65536);
        },
        EEasingMode::QuadIn => {
            assert(spec_quad_in(0) == 0);
            assert(spec_quad_in(65536) == 65536);
        },
        EEasingMode::QuadOut => {
            assert(spec_quad_out(0) == 0);
            assert(spec_quad_out(65536) == 65536);
        },
        EEasingMode::QuadInOut => {
            assert(spec_quad_in_out(0) == 0);
            assert(spec_quad_in_out(65536) == 65536);
        },
        EEasingMode::QuartIn => {
            assert(spec_quart_in(0) == 0);
            assert(spec_quart_in(65536) == 65536);
        },
        EEasingMode::QuartOut => {
            assert(spec_quart_out(0) == 0);
            assert(spec_quart_out(65536) == 65536);
        },
        EEasingMode::QuartInOut => {
            assert(spec_quart_in_out(0) == 0);
            assert(spec_quart_in_out(65536) == 65536);
        },
        EEasingMode::QuintIn => {
            assert(spec_quint_in(0) == 0);
            assert(spec_quint_in(65536) == 65536);
        },
        EEasingMode::QuintOut => {
            assert(spec_quint_out(0) == 0);
            assert(spec_quint_out(65536) == 65536);
        },
        EEasingMode::QuintInOut => {
            assert(spec_quint_in_out(0) == 0);
            assert(spec_quint_in_out(65536) == 65536);
        },
        EEasingMode::ExpoIn => {
            assert(spec_expo_in(0) == 0);
            assert(spec_expo_in(65536) == 65536);
        },
        EEasingMode::ExpoOut => {
            assert(spec_expo_out(0) == 0);
            assert(spec_expo_out(65536) == 65536);
        },
        EEasingMode::ExpoInOut => {
            assert(spec_expo_in_out(0) == 0);
            assert(spec_expo_in_out(65536) == 65536);
        },
        EEasingMode::ElasticIn => {
            assert(spec_elastic_in(0) == 0);
            assert(spec_elastic_in(65536) == 65536);
        },
        EEasingMode::ElasticOut => {
            assert(spec_elastic_out(0) == 0);
            assert(spec_elastic_out(65536) == 65536);
        },
        EEasingMode::ElasticInOut => {
            assert(spec_elastic_in_out(0) == 0);
            assert(spec_elastic_in_out(65536) == 65536);
        },
        EEasingMode::BounceIn => {
            assert(spec_bounce_in(0) == 0);
            assert(spec_bounce_in(65536) == 65536);
        },
        EEasingMode::BounceOut => {
            assert(spec_bounce_out(0) == 0);
            assert(spec_bounce_out(65536) == 65536);
        },
        EEasingMode::BounceInOut => {
            assert(spec_bounce_in_out(0) == 0);
            assert(spec_bounce_in_out(65536) == 65536);
        },
    }
}

/// Applies the easing function selected by `mode` to a progress in `[0, 1]`.
/// Every mode maps 0 to 0 and 1 to 1 exactly.
pub fn easing_call(x: i64, mode: &EEasingMode) -> (r: i64)
    requires
        0 <= x <= FX_ONE,
    ensures
        r as int == spec_easing(*mode, x as int),
        eased_bounded(r as int),
        x == 0 ==> r == 0,
        x == FX_ONE ==> r == FX_ONE,
{
    proof {
        lemma_easing_endpoints(*mode);
    }
    match mode {
        EEasingMode::Linear => linear_in(x),
        EEasingMode::BackIn => back_in(x),
        EEasingMode::BackOut => back_out(x),
        EEasingMode::BackInOut => back_in_out(x),
        EEasingMode::CircleIn => circle_in(x),
        EEasingMode::CircleOut => circle_out(x),
        EEasingMode::CircleInOut => circle_in_out(x),
        EEasingMode::CubicIn => cubic_in(x),
        EEasingMode::CubicOut => cubic_out(x),
        EEasingMode::CubicInOut => cubic_in_out(x),
        EEasingMode::SineIn => sine_in(x),
        EEasingMode::SineOut => sine_out(x),
        EEasingMode::SineInOut => sine_in_out(x),
        EEasingMode::QuadIn => quad_in(x),
        EEasingMode::QuadOut => quad_out(x),
        EEasingMode::QuadInOut => quad_in_out(x),
        EEasingMode::QuartIn => quart_in(x),
        EEasingMode::QuartOut => quart_out(x),
        EEasingMode::QuartInOut => quart_in_out(x),
        EEasingMode::QuintIn => quint_in(x),
        EEasingMode::QuintOut => quint_out(x),
        EEasingMode::QuintInOut => quint_in_out(x),
        EEasingMode::ExpoIn => expo_in(x),
        EEasingMode::ExpoOut => expo_out(x),
        EEasingMode::ExpoInOut => expo_in_out(x),
        EEasingMode::ElasticIn => elastic_in(x),
        EEasingMode::ElasticOut => elastic_out(x),
        EEasingMode::ElasticInOut => elastic_in_out(x),
        EEasingMode::BounceIn => bounce_in(x),
        EEasingMode::BounceOut => bounce_out(x),
        EEasingMode::BounceInOut => bounce_in_out(x),
    }
}

/// The easing dispatch resolved once at construction time: a small value
/// that remembers the selected mode and applies it without re-deciding.
#[derive(Clone, Copy, Debug, PartialEq, Eq, Structural)]
pub struct EasingCall {
    pub mode: EEasingMode,
}

impl EasingCall {
    /// Applies the resolved easing function.
    pub fn call(&self, x: i64) -> (r: i64)
        requires
            0 <= x <= FX_ONE,
        ensures
            r as int == spec_easing(self.mode, x as int),
            eased_bounded(r as int),
            x == 0 ==> r == 0,
            x == FX_ONE ==> r == FX_ONE,
    {
        easing_call(x, &self.mode)
    }
}

/// Resolves an easing mode to its remap function once, ahead of evaluation.
pub fn get_easing_call(mode: &EEasingMode) -> (r: EasingCall)
    ensures
        r.mode == *mode,
{
    EasingCall { mode: *mode }
}

} // verus!
