//! Inversion of a 2D cubic Bézier easing curve.
//!
//! The curve runs from (0,0) to (1,1) with free control points (x1,y1) and
//! (x2,y2). For a time fraction `t` the solver finds the curve parameter
//! whose X coordinate is `t` by five Newton-Raphson steps (a fixed count,
//! for deterministic cost), clamping after every step, and returns the Y
//! coordinate there.

use vstd::prelude::*;
use crate::fixed::{FX_ONE, FX_HALF, fx_mul, fx_div, fx_clamp01, mul_fx, div_fx, clamp01,
    lemma_fx_mul_one, lemma_fx_mul_zero};

verus! {

/// The X polynomial of the Bézier curve at parameter `s`:
/// `f0 s^3 + f1 s^2 + f2 s` with `f0 = 1 - 3 x2 + 3 x1`,
/// `f1 = 3 x2 - 6 x1`, `f2 = 3 x1`.
pub open spec fn spec_bezier_x(x1: int, x2: int, s: int) -> int {
    let f0 = FX_ONE as int - 3 * x2 + 3 * x1;
    let f1 = 3 * x2 - 6 * x1;
    let f2 = 3 * x1;
    let s2 = fx_mul(s, s);
    let s3 = fx_mul(s2, s);
    fx_mul(f0, s3) + fx_mul(f1, s2) + fx_mul(f2, s)
}

/// One clamped Newton-Raphson step toward `x(s) == t`. A vanishing
/// derivative leaves `s` unchanged.
pub open spec fn spec_newton_step(x1: int, x2: int, t: int, s: int) -> int {
    let f0 = FX_ONE as int - 3 * x2 + 3 * x1;
    let f1 = 3 * x2 - 6 * x1;
    let f2 = 3 * x1;
    let s2 = fx_mul(s, s);
    let x = spec_bezier_x(x1, x2, s);
    let denom = fx_mul(3 * f0, s2) + fx_mul(2 * f1, s) + f2;
    if denom == 0 {
        s
    } else {
        let slope = fx_div(FX_ONE as int, denom);
        fx_clamp01(s - fx_mul(x - t, slope))
    }
}

/// `n` Newton-Raphson steps from `s`.
pub open spec fn spec_newton_iter(x1: int, x2: int, t: int, s: int, n: nat) -> int
    decreases n,
{
    if n == 0 {
        s
    } else {
        spec_newton_step(x1, x2, t, spec_newton_iter(x1, x2, t, s, (n - 1) as nat))
    }
}

/// The Y polynomial of the Bézier curve at parameter `s`:
/// `3 (1-s)^2 s y1 + 3 (1-s) s^2 y2 + s^3`.
pub open spec fn spec_bezier_y(y1: int, y2: int, s: int) -> int {
    let u = FX_ONE as int - s;
    let s2 = fx_mul(s, s);
    let s3 = fx_mul(s2, s);
    fx_mul(fx_mul(3 * fx_mul(u, u), s), y1) + fx_mul(fx_mul(3 * u, s2), y2) + s3
}

/// What [`cubic_bezier`] computes: Y at the parameter reached by five
/// Newton steps started at `t`.
pub open spec fn spec_cubic_bezier(x1: int, y1: int, x2: int, y2: int, t: int) -> int {
    spec_bezier_y(y1, y2, spec_newton_iter(x1, x2, t, t, 5))
}

fn newton_step(x1: i64, x2: i64, t: i64, s: i64) -> (r: i64)
    requires
        0 <= x1 <= FX_ONE,
        0 <= x2 <= FX_ONE,
        0 <= t <= FX_ONE,
        0 <= s <= FX_ONE,
    ensures
        r as int == spec_newton_step(x1 as int, x2 as int, t as int, s as int),
        0 <= r <= FX_ONE,
{
    let f0 = FX_ONE - 3 * x2 + 3 * x1;
    let f1 = 3 * x2 - 6 * x1;
    let f2 = 3 * x1;
    let s2 = mul_fx(s, s);
    let s3 = mul_fx(s2, s);
    let x = mul_fx(f0, s3) + mul_fx(f1, s2) + mul_fx(f2, s);
    let denom = mul_fx(3 * f0, s2) + mul_fx(2 * f1, s) + f2;
    if denom == 0 {
        s
    } else {
        let slope = div_fx(FX_ONE, denom);
        clamp01(s - mul_fx(x - t, slope))
    }
}

/// Solves the cubic Bézier easing curve with control points
/// `(x1, y1), (x2, y2)` at the time fraction `t`.
pub fn cubic_bezier(x1: i64, y1: i64, x2: i64, y2: i64, t: i64) -> (r: i64)
    requires
        0 <= x1 <= FX_ONE,
        0 <= x2 <= FX_ONE,
        -0x10_0000 <= y1 <= 0x10_0000,
        -0x10_0000 <= y2 <= 0x10_0000,
        0 <= t <= FX_ONE,
    ensures
        r as int == spec_cubic_bezier(x1 as int, y1 as int, x2 as int, y2 as int, t as int),
        -0x400_0000_0000_0000 <= r <= 0x400_0000_0000_0000,
{
    proof {
        reveal_with_fuel(spec_newton_iter, 6);
    }
    let mut s = t;
    s = newton_step(x1, x2, t, s);
    s = newton_step(x1, x2, t, s);
    s = newton_step(x1, x2, t, s);
    s = newton_step(x1, x2, t, s);
    s = newton_step(x1, x2, t, s);
    let u = FX_ONE - s;
    let s2 = mul_fx(s, s);
    let s3 = mul_fx(s2, s);
    mul_fx(mul_fx(3 * mul_fx(u, u), s), y1) + mul_fx(mul_fx(3 * u, s2), y2) + s3
}

/// A progress fixed by one Newton step is fixed by any number of them.
proof fn lemma_newton_fixpoint(x1: int, x2: int, t: int, n: nat)
    requires
        spec_newton_step(x1, x2, t, t) == t,
    ensures
        spec_newton_iter(x1, x2, t, t, n) == t,
    decreases n,
{
    if n > 0 {
        lemma_newton_fixpoint(x1, x2, t, (n - 1) as nat);
    }
}

/// The solver is exact at both ends of the time axis, for every admissible
/// set of control points: a fraction of 0 yields 0 and a fraction of 1
/// yields 1.
pub proof fn lemma_cubic_bezier_endpoints(x1: int, y1: int, x2: int, y2: int)
    requires
        0 <= x1 <= FX_ONE as int,
        0 <= x2 <= FX_ONE as int,
    ensures
        spec_cubic_bezier(x1, y1, x2, y2, 0) == 0,
        spec_cubic_bezier(x1, y1, x2, y2, FX_ONE as int) == FX_ONE as int,
{
    let f0 = FX_ONE as int - 3 * x2 + 3 * x1;
    let f1 = 3 * x2 - 6 * x1;
    let f2 = 3 * x1;

    // At t = 0 the start parameter 0 has x(0) = 0, so Newton never moves.
    lemma_fx_mul_zero(f0);
    lemma_fx_mul_zero(f1);
    lemma_fx_mul_zero(f2);
    lemma_fx_mul_zero(3 * f0);
    lemma_fx_mul_zero(2 * f1);
    assert(spec_bezier_x(x1, x2, 0) == 0);
    let denom0 = fx_mul(3 * f0, 0) + fx_mul(2 * f1, 0) + f2;
    if denom0 != 0 {
        let slope0 = fx_div(FX_ONE as int, denom0);
        lemma_fx_mul_zero(slope0);
        assert(fx_clamp01(0 - fx_mul(0, slope0)) == 0);
    }
    assert(spec_newton_step(x1, x2, 0, 0) == 0);
    lemma_newton_fixpoint(x1, x2, 0, 5);
    lemma_fx_mul_zero(y1);
    lemma_fx_mul_zero(y2);
    assert(spec_bezier_y(y1, y2, 0) == 0);

    // At t = 1 the start parameter 1 has x(1) = f0 + f1 + f2 = 1 exactly.
    let one = FX_ONE as int;
    assert(fx_mul(one, one) == one);
    lemma_fx_mul_one(f0);
    lemma_fx_mul_one(f1);
    lemma_fx_mul_one(f2);
    assert(spec_bezier_x(x1, x2, one) == f0 + f1 + f2);
    assert(f0 + f1 + f2 == one);
    let denom1 = fx_mul(3 * f0, fx_mul(one, one)) + fx_mul(2 * f1, one) + f2;
    if denom1 != 0 {
        let slope1 = fx_div(one, denom1);
        lemma_fx_mul_zero(slope1);
        assert(fx_clamp01(one - fx_mul(0, slope1)) == one);
    }
    assert(spec_newton_step(x1, x2, one, one) == one);
    lemma_newton_fixpoint(x1, x2, one, 5);
    lemma_fx_mul_zero(3int * fx_mul(0int, 0int));
    assert(spec_bezier_y(y1, y2, one) == one) by {
        assert(fx_mul(0int, 0int) == 0);
        assert(fx_mul(fx_mul(3int * 0int, one), y1) == 0) by {
            lemma_fx_mul_zero(one);
            lemma_fx_mul_zero(y1);
        }
        assert(fx_mul(fx_mul(3int * 0int, fx_mul(one, one)), y2) == 0) by {
            lemma_fx_mul_zero(fx_mul(one, one));
            lemma_fx_mul_zero(y2);
        }
        assert(fx_mul(fx_mul(one, one), one) == one);
    }
}

/// With identity control points (0, 0, 1, 1) the curve's X and Y
/// polynomials coincide, so the solver reproduces the linear remap exactly
/// at the anchors 0, 1/2 and 1 of the Newton iteration (elsewhere a
/// truncation residue of a few quanta remains).
pub proof fn lemma_cubic_bezier_identity_anchors()
    ensures
        spec_cubic_bezier(0, 0, FX_ONE as int, FX_ONE as int, 0) == 0,
        spec_cubic_bezier(0, 0, FX_ONE as int, FX_ONE as int, FX_HALF as int) == FX_HALF as int,
        spec_cubic_bezier(0, 0, FX_ONE as int, FX_ONE as int, FX_ONE as int) == FX_ONE as int,
{
    lemma_cubic_bezier_endpoints(0, 0, FX_ONE as int, FX_ONE as int);
    reveal_with_fuel(spec_newton_iter, 6);
    let one = FX_ONE as int;
    assert(crate::fixed::fx_trunc_div(32768int * 32768int, 65536int) == 16384);
    assert(fx_mul(32768, 32768) == 16384);
    assert(crate::fixed::fx_trunc_div(16384int * 32768int, 65536int) == 8192);
    assert(fx_mul(16384, 32768) == 8192);
    assert(crate::fixed::fx_trunc_div(-131072int * 8192int, 65536int) == -16384);
    assert(fx_mul(-131072, 8192) == -16384);
    assert(crate::fixed::fx_trunc_div(196608int * 16384int, 65536int) == 49152);
    assert(fx_mul(196608, 16384) == 49152);
    assert(crate::fixed::fx_trunc_div(0int * 32768int, 65536int) == 0);
    assert(fx_mul(0, 32768) == 0);
    assert(spec_bezier_x(0, one, 32768) == 32768);
    assert(crate::fixed::fx_trunc_div(-393216int * 16384int, 65536int) == -98304);
    assert(fx_mul(-393216, 16384) == -98304);
    assert(crate::fixed::fx_trunc_div(393216int * 32768int, 65536int) == 196608);
    assert(fx_mul(393216, 32768) == 196608);
    assert(crate::fixed::fx_trunc_div(65536int * 65536int, 98304int) == 43690);
    assert(fx_div(one, 98304) == 43690);
    assert(crate::fixed::fx_trunc_div(0int * 43690int, 65536int) == 0);
    assert(fx_mul(0, 43690) == 0);
    assert(spec_newton_step(0, one, 32768, 32768) == 32768);
    lemma_newton_fixpoint(0, one, 32768, 5);
    assert(crate::fixed::fx_trunc_div(49152int * 32768int, 65536int) == 24576);
    assert(fx_mul(49152, 32768) == 24576);
    assert(crate::fixed::fx_trunc_div(24576int * 0int, 65536int) == 0);
    assert(fx_mul(24576, 0) == 0);
    assert(crate::fixed::fx_trunc_div(98304int * 16384int, 65536int) == 24576);
    assert(fx_mul(98304, 16384) == 24576);
    assert(crate::fixed::fx_trunc_div(24576int * 65536int, 65536int) == 24576);
    assert(fx_mul(24576, one) == 24576);
    assert(spec_bezier_y(0, one, 32768) == 32768);
}

} // verus!
