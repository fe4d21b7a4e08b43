//! The amount calculator: remaps a normalized `[0, 1]` progress through
//! step quantization, a named easing or a cubic Bézier before it reaches an
//! interpolation kernel.

use vstd::prelude::*;
use crate::fixed::{FX_ONE, FX_HALF, fx_clamp01, fx_trunc_div, clamp01, eased_bounded};
use crate::easing::EEasingMode;
use crate::easing::function::{easing_call, spec_easing};
use crate::bezier::{cubic_bezier, spec_cubic_bezier};
use crate::curve::FrameIndex;
use crate::curve::frame::KeyFrameCurveValue;
use vstd::arithmetic::div_mod::{lemma_mod_multiples_basic, lemma_div_multiples_vanish,
    lemma_div_multiples_vanish_fancy, lemma_div_by_multiple, lemma_div_of0};

verus! {

/// Rounding style of step quantization.
#[derive(Clone, Copy, Debug, PartialEq, Eq, Structural)]
pub enum EStepMode {
    Floor,
    Ceil,
    Round,
}

/// The progress-remapping mode of a curve.
#[derive(Clone, Copy, Debug, PartialEq, Eq, Structural)]
pub enum EAmountMode {
    Identity,
    Steps(EStepMode),
    Easing(EEasingMode),
    CubicBezier,
}

/// Up to four fixed-point parameters, read according to the mode: the step
/// count, or the four Bézier control parameters.
#[derive(Clone, Copy, Debug, PartialEq, Eq, Structural)]
pub struct AmountParam(
    pub KeyFrameCurveValue,
    pub KeyFrameCurveValue,
    pub KeyFrameCurveValue,
    pub KeyFrameCurveValue,
);

impl Default for AmountParam {
    /// All parameters zero.
    fn default() -> (r: Self)
        ensures
            r == AmountParam(0i64, 0i64, 0i64, 0i64),
    {
        AmountParam(0, 0, 0, 0)
    }
}

/// Quantization of a progress into `count` buckets: the scaled progress is
/// rounded to a whole bucket (by the selected rounding style) and mapped
/// back into `[0, 1]`.
pub open spec fn spec_steps(count: int, mode: EStepMode, amount: int) -> int {
    let scaled = amount * count;
    let bucket = match mode {
        EStepMode::Floor => scaled / (FX_ONE as int),
        EStepMode::Ceil => (scaled + FX_ONE as int - 1) / (FX_ONE as int),
        EStepMode::Round => (scaled + FX_HALF as int) / (FX_ONE as int),
    };
    fx_clamp01(fx_trunc_div(bucket * (FX_ONE as int), count))
}

fn steps_calc(count: i64, mode: &EStepMode, amount: i64) -> (r: i64)
    requires
        2 <= count <= 65535,
        0 <= amount <= FX_ONE,
    ensures
        r as int == spec_steps(count as int, *mode, amount as int),
        0 <= r <= FX_ONE,
        amount == 0 ==> r == 0,
        amount == FX_ONE ==> r == FX_ONE,
{
    proof {
        assert(0 <= (amount as int) * (count as int) <= 65536 * 65535) by (nonlinear_arith)
            requires
                0 <= amount as int <= 65536,
                0 <= count as int <= 65535,
        ;
        if amount == 0 {
            assert((amount as int) * (count as int) == 0) by (nonlinear_arith)
                requires
                    amount as int == 0,
            ;
        }
        if amount == FX_ONE {
            assert((amount as int) * (count as int) == 65536 * (count as int))
                by (nonlinear_arith)
                requires
                    amount as int == 65536,
            ;
        }
    }
    let scaled = amount * count;
    let bucket = match mode {
        EStepMode::Floor => scaled / FX_ONE,
        EStepMode::Ceil => (scaled + FX_ONE - 1) / FX_ONE,
        EStepMode::Round => (scaled + FX_HALF) / FX_ONE,
    };
    proof {
        if amount == 0 {
            lemma_div_of0(count as int);
            assert(0int * 65536 == 0);
            assert(bucket == 0);
        }
        if amount == FX_ONE {
            lemma_div_by_multiple(count as int, 65536);
            lemma_div_multiples_vanish_fancy(count as int, 65535, 65536);
            lemma_div_multiples_vanish_fancy(count as int, 32768, 65536);
            assert(bucket as int == count as int);
            lemma_div_by_multiple(65536, count as int);
            assert(((bucket as int) * 65536) / (count as int) == 65536);
        }
    }
    clamp01((bucket * FX_ONE) / count)
}

/// What [`AnimationAmountCalc::calc`] returns for each mode.
pub open spec fn spec_amount_calc(mode: EAmountMode, param: AmountParam, amount: int) -> int {
    match mode {
        EAmountMode::Identity => amount,
        EAmountMode::Steps(m) => spec_steps(param.0 as int / (FX_ONE as int), m, amount),
        EAmountMode::Easing(e) => spec_easing(e, amount),
        EAmountMode::CubicBezier => spec_cubic_bezier(param.0 as int, param.1 as int,
            param.2 as int, param.3 as int, amount),
    }
}

/// A remapping mode paired with its parameters, resolved once per curve and
/// reused for every evaluation.
pub struct AnimationAmountCalc {
    mode: EAmountMode,
    param: AmountParam,
}

impl Default for AnimationAmountCalc {
    /// The identity remap.
    fn default() -> (r: Self)
        ensures
            r.spec_mode() == EAmountMode::Identity,
            r.wf(),
    {
        Self { mode: EAmountMode::Identity, param: AmountParam(0, 0, 0, 0) }
    }
}

impl AnimationAmountCalc {
    /// The stored mode.
    pub closed spec fn spec_mode(&self) -> EAmountMode {
        self.mode
    }

    /// The stored parameters.
    pub closed spec fn spec_param(&self) -> AmountParam {
        self.param
    }

    /// The parameters fit the mode: a steps calculator stores a whole step
    /// count of at least 2; a Bézier calculator stores admissible control
    /// parameters.
    pub closed spec fn wf(&self) -> bool {
        match self.mode {
            EAmountMode::Identity => true,
            EAmountMode::Steps(_) => 2 * (FX_ONE as int) <= self.param.0 as int <= 65535 * (
            FX_ONE as int) && self.param.0 as int % (FX_ONE as int) == 0,
            EAmountMode::Easing(_) => true,
            EAmountMode::CubicBezier => 0 <= self.param.0 <= FX_ONE && 0 <= self.param.2 <= FX_ONE
                && -0x10_0000 <= self.param.1 <= 0x10_0000 && -0x10_0000 <= self.param.3
                <= 0x10_0000,
        }
    }

    /// The active remapping mode.
    pub fn mode(&self) -> (r: EAmountMode)
        ensures
            r == self.spec_mode(),
    {
        self.mode
    }

    /// A step quantizer with `step` buckets; a count of at most 1
    /// degenerates to the identity.
    pub fn from_steps(step: FrameIndex, mode: EStepMode) -> (r: Self)
        ensures
            r.wf(),
            step <= 1 ==> r.spec_mode() == EAmountMode::Identity,
            step > 1 ==> r.spec_mode() == EAmountMode::Steps(mode) && r.spec_param().0 as int
                == step as int * (FX_ONE as int),
    {
        if step <= 1 {
            AnimationAmountCalc::default()
        } else {
            proof {
                lemma_mod_multiples_basic(step as int, FX_ONE as int);
            }
            Self {
                mode: EAmountMode::Steps(mode),
                param: AmountParam((step as i64) * FX_ONE, 0, 0, 0),
            }
        }
    }

    /// A named-easing remap.
    pub fn from_easing(mode: EEasingMode) -> (r: Self)
        ensures
            r.wf(),
            r.spec_mode() == EAmountMode::Easing(mode),
    {
        Self { mode: EAmountMode::Easing(mode), param: AmountParam(0, 0, 0, 0) }
    }

    /// A cubic-Bézier remap with control parameters `(x1, y1), (x2, y2)`.
    pub fn from_cubic_bezier(x1: KeyFrameCurveValue, y1: KeyFrameCurveValue,
        x2: KeyFrameCurveValue, y2: KeyFrameCurveValue) -> (r: Self)
        requires
            0 <= x1 <= FX_ONE,
            0 <= x2 <= FX_ONE,
            -0x10_0000 <= y1 <= 0x10_0000,
            -0x10_0000 <= y2 <= 0x10_0000,
        ensures
            r.wf(),
            r.spec_mode() == EAmountMode::CubicBezier,
            r.spec_param() == AmountParam(x1, y1, x2, y2),
    {
        Self { mode: EAmountMode::CubicBezier, param: AmountParam(x1, y1, x2, y2) }
    }

    /// Remaps a clamped progress according to the stored mode.
    pub fn calc(&self, amount: KeyFrameCurveValue) -> (r: KeyFrameCurveValue)
        requires
            self.wf(),
            0 <= amount <= FX_ONE,
        ensures
            r as int == spec_amount_calc(self.spec_mode(), self.spec_param(), amount as int),
            eased_bounded(r as int),
            amount == 0 ==> r == 0,
            amount == FX_ONE ==> r == FX_ONE,
    {
        match self.mode {
            EAmountMode::Identity => amount,
            EAmountMode::Steps(m) => {
                let count = self.param.0 / FX_ONE;
                steps_calc(count, &m, amount)
            },
            EAmountMode::Easing(e) => easing_call(amount, &e),
            EAmountMode::CubicBezier => {
                proof {
                    crate::bezier::lemma_cubic_bezier_endpoints(self.param.0 as int,
                        self.param.1 as int, self.param.2 as int, self.param.3 as int);
                }
                cubic_bezier(self.param.0, self.param.1, self.param.2, self.param.3, amount)
            },
        }
    }
}

} // verus!
