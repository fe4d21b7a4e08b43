//! Fixed-point approximations: square root, sine, and base-2 exponential.
//!
//! Each function's contract states exactly the integer formula it computes.
//! The formulas are chosen so that the values an easing family relies on
//! (its endpoints, and the midpoints of the InOut forms) come out exact.

use vstd::prelude::*;
use crate::fixed::{FX_ONE, FX_HALF, FX_SAT, fx_mul, fx_div, fx_sat, mul_fx, div_fx,
    lemma_fx_mul_le, lemma_fx_mul_unit_le, lemma_fx_div_le};

verus! {

/// Floor of the integer square root, by halving the argument two bits at a
/// time.
pub open spec fn sqrt_floor(n: int) -> int
    decreases n,
{
    if n < 1 {
        0
    } else {
        let h = 2 * sqrt_floor(n / 4);
        if (h + 1) * (h + 1) <= n {
            h + 1
        } else {
            h
        }
    }
}

/// `sqrt_floor(n)` is the unique nonnegative root bracketing `n`.
pub proof fn lemma_sqrt_floor(n: int)
    requires
        n >= 0,
    ensures
        0 <= sqrt_floor(n),
        sqrt_floor(n) * sqrt_floor(n) <= n,
        n < (sqrt_floor(n) + 1) * (sqrt_floor(n) + 1),
    decreases n,
{
    if n < 1 {
        assert(sqrt_floor(n) == 0);
    } else {
        lemma_sqrt_floor(n / 4);
        let s = sqrt_floor(n / 4);
        let h = 2 * s;
        assert(4 * (n / 4) <= n && n <= 4 * (n / 4) + 3) by (nonlinear_arith)
            requires
                n >= 1,
        ;
        assert(h * h <= 4 * (n / 4)) by (nonlinear_arith)
            requires
                h == 2 * s,
                s * s <= n / 4,
        ;
        assert(n < (h + 2) * (h + 2)) by (nonlinear_arith)
            requires
                h == 2 * s,
                n / 4 < (s + 1) * (s + 1),
                n <= 4 * (n / 4) + 3,
        ;
        if (h + 1) * (h + 1) <= n {
            assert(sqrt_floor(n) == h + 1);
        } else {
            assert(sqrt_floor(n) == h);
        }
    }
}

/// The square root of a fixed-point value: `sqrt(x / 65536) * 65536`,
/// rounded down.
pub open spec fn fx_sqrt(x: int) -> int {
    sqrt_floor(x * (FX_ONE as int))
}

/// Computes the fixed-point square root by bisection.
pub fn sqrt_fx(x: i64) -> (r: i64)
    requires
        0 <= x <= FX_SAT,
    ensures
        r as int == fx_sqrt(x as int),
        0 <= r <= 0x40_0000_0000,
{
    proof {
        assert((x as int) * 65536 < 0x1_0000_0000_0000_0000_0000_0000_0000_0000)
            by (nonlinear_arith)
            requires
                0 <= x as int <= 0x100_0000_0000_0000,
        ;
    }
    let n: u128 = (x as u128) * (FX_ONE as u128);
    let mut lo: u64 = 0;
    let mut hi: u64 = 0x40_0000_0000;
    proof {
        assert((n as int) < 0x40_0000_0000 * 0x40_0000_0000) by (nonlinear_arith)
            requires
                n as int == (x as int) * 65536,
                0 <= x as int <= 0x100_0000_0000_0000,
        ;
    }
    while lo + 1 < hi
        invariant
            n as int == (x as int) * 65536,
            (lo as int) * (lo as int) <= n as int,
            (n as int) < (hi as int) * (hi as int),
            lo < hi,
            hi <= 0x40_0000_0000,
        decreases hi - lo,
    {
        let mid: u64 = lo + (hi - lo) / 2;
        proof {
            assert((mid as int) * (mid as int) < 0x1_0000_0000_0000_0000_0000_0000_0000_0000)
                by (nonlinear_arith)
                requires
                    0 <= mid as int <= 0x40_0000_0000,
            ;
        }
        let sq: u128 = (mid as u128) * (mid as u128);
        if sq <= n {
            lo = mid;
        } else {
            hi = mid;
        }
    }
    proof {
        lemma_sqrt_floor(n as int);
        let s = sqrt_floor(n as int);
        assert(s == lo as int) by (nonlinear_arith)
            requires
                0 <= s,
                s * s <= n as int,
                (n as int) < (s + 1) * (s + 1),
                0 <= lo as int,
                (lo as int) * (lo as int) <= n as int,
                (n as int) < (lo as int + 1) * (lo as int + 1),
        ;
    }
    lo as i64
}

/// Bhaskara's rational approximation of `sin(pi * v)` for `v` in `[0, 1]`:
/// `16 v (1 - v) / (5 - 4 v (1 - v))`. Exact at 0, 1/2 and 1.
pub open spec fn spec_sinp(v: int) -> int {
    let w = fx_mul(v, FX_ONE as int - v);
    fx_div(16 * w, 5 * (FX_ONE as int) - 4 * w)
}

/// Fixed-point `sin(pi * v)` for `v` in the unit interval.
pub fn sinp(v: i64) -> (r: i64)
    requires
        0 <= v <= FX_ONE,
    ensures
        r as int == spec_sinp(v as int),
        0 <= r <= FX_ONE,
{
    let w = mul_fx(v, FX_ONE - v);
    proof {
        assert(0 <= (v as int) * (65536 - v as int)
            && (v as int) * (65536 - v as int) <= 16384 * 65536) by (nonlinear_arith)
            requires
                0 <= v as int <= 65536,
        ;
        lemma_fx_mul_le(v as int, 65536 - v as int, 16384);
    }
    let num = 16 * w;
    let den = 5 * FX_ONE - 4 * w;
    proof {
        lemma_fx_div_le(num as int, den as int);
    }
    div_fx(num, den)
}

/// `sin(2 * pi * u)` for `u` measured in turns, reduced modulo one turn and
/// folded onto two half-turn arches of `spec_sinp`.
pub open spec fn spec_sin_turns(u: int) -> int {
    let m = u % (FX_ONE as int);
    if m <= FX_HALF as int {
        spec_sinp(2 * m)
    } else {
        -spec_sinp(2 * m - FX_ONE as int)
    }
}

/// Fixed-point sine of an angle given in turns.
pub fn sin_turns(u: i64) -> (r: i64)
    requires
        -0x1_0000_0000_0000 <= u <= 0x1_0000_0000_0000,
    ensures
        r as int == spec_sin_turns(u as int),
        -FX_ONE <= r <= FX_ONE,
{
    let m0 = u % FX_ONE;
    let m = if m0 < 0 {
        m0 + FX_ONE
    } else {
        m0
    };
    assert(m as int == (u as int) % 65536);
    if m <= FX_HALF {
        sinp(2 * m)
    } else {
        -sinp(2 * m - FX_ONE)
    }
}

/// One saturating doubling per step.
pub open spec fn double_n(p: int, n: int) -> int
    decreases n,
{
    if n <= 0 {
        p
    } else {
        fx_sat(2 * double_n(p, n - 1))
    }
}

/// One halving (rounding down) per step.
pub open spec fn halve_n(p: int, n: int) -> int
    decreases n,
{
    if n <= 0 {
        p
    } else {
        halve_n(p, n - 1) / 2
    }
}

/// Cubic-polynomial coefficients for `2^f` on `f` in `[0, 1)`, in fixed
/// point: roughly 0.69315, 0.23423 and 0.07262.
pub const EXP2_C1: i64 = 45426;

pub const EXP2_C2: i64 = 15351;

pub const EXP2_C3: i64 = 4760;

/// `2^(e / 65536) * 65536`: the exponent is split into its integer part
/// (applied as doublings or halvings) and its fraction (approximated by a
/// cubic polynomial that is exact at 0).
pub open spec fn spec_exp2(e: int) -> int {
    let k = e / (FX_ONE as int);
    let f = e % (FX_ONE as int);
    let p = FX_ONE as int + fx_mul(f, EXP2_C1 as int + fx_mul(f, EXP2_C2 as int + fx_mul(
        f,
        EXP2_C3 as int,
    )));
    if k >= 0 {
        double_n(p, k)
    } else {
        halve_n(p, -k)
    }
}

/// Fixed-point base-2 exponential for exponents within about +/-10.
pub fn exp2_fx(e: i64) -> (r: i64)
    requires
        -660000 <= e <= 660000,
    ensures
        r as int == spec_exp2(e as int),
        0 <= r <= FX_SAT,
{
    let k0 = e / FX_ONE;
    let r0 = e % FX_ONE;
    let (k, f): (i64, i64) = if r0 < 0 {
        (k0 - 1, r0 + FX_ONE)
    } else {
        (k0, r0)
    };
    assert(k as int == (e as int) / 65536 && f as int == (e as int) % 65536);
    proof {
        lemma_fx_mul_unit_le(f as int, EXP2_C3 as int);
        lemma_fx_mul_unit_le(f as int, EXP2_C2 as int + fx_mul(f as int, EXP2_C3 as int));
        lemma_fx_mul_unit_le(f as int,
            EXP2_C1 as int + fx_mul(f as int, EXP2_C2 as int + fx_mul(f as int, EXP2_C3 as int)));
    }
    let p: i64 = FX_ONE + mul_fx(f, EXP2_C1 + mul_fx(f, EXP2_C2 + mul_fx(f, EXP2_C3)));
    if k >= 0 {
        let mut r: i64 = p;
        let mut i: i64 = 0;
        while i < k
            invariant
                0 <= i <= k,
                r as int == double_n(p as int, i as int),
                0 <= r <= FX_SAT,
            decreases k - i,
        {
            r = if r > FX_SAT / 2 {
                FX_SAT
            } else {
                2 * r
            };
            i = i + 1;
        }
        r
    } else {
        let steps = -k;
        let mut r: i64 = p;
        let mut i: i64 = 0;
        while i < steps
            invariant
                0 <= i <= steps,
                r as int == halve_n(p as int, i as int),
                0 <= r <= FX_SAT,
            decreases steps - i,
        {
            r = r / 2;
            i = i + 1;
        }
        r
    }
}

} // verus!
