//! Evaluation kernels, one per curve kind.
//!
//! Each kernel locates the segment of the target frame (where the kind has
//! per-frame samples), turns it into a clamped progress, remaps that
//! progress, and blends values through the value algebra.

use vstd::prelude::*;
use crate::fixed::{FX_ONE, FX_HALF, fx_div, fx_clamp01, div_fx, clamp01};
use crate::easing::function::{easing_call, spec_easing};
use crate::bezier::{cubic_bezier, spec_cubic_bezier};
use crate::hermite::{hermite, spec_hermite};
use crate::amount::{AnimationAmountCalc, spec_amount_calc};
use crate::curve::frame::{FrameDataValue, FrameValueScale, KeyFrameCurveValue};
use crate::curve::frame_curve::{FrameCurve, spec_pre_next};

verus! {

/// The clamped normalized progress of `target_frame` between `frame1` and
/// `frame2`; a degenerate segment (equal frames) short-circuits to 0.
pub open spec fn spec_segment_amount(frame1: int, frame2: int, target_frame: int) -> int {
    if frame1 == frame2 {
        0
    } else {
        fx_clamp01(
            fx_div(target_frame - frame1 * (FX_ONE as int), (frame2 - frame1) * (FX_ONE as int)),
        )
    }
}

fn segment_amount(frame1: u16, frame2: u16, target_frame: i64) -> (r: i64)
    requires
        -0x1_0000_0000_0000 <= target_frame <= 0x1_0000_0000_0000,
    ensures
        r as int == spec_segment_amount(frame1 as int, frame2 as int, target_frame as int),
        0 <= r <= FX_ONE,
{
    if frame1 == frame2 {
        0
    } else {
        clamp01(
            div_fx(
                target_frame - (frame1 as i64) * FX_ONE,
                ((frame2 as i64) - (frame1 as i64)) * FX_ONE,
            ),
        )
    }
}

/// What [`interplate_frame_values`] returns: the two bracketing samples,
/// linearly interpolated at the eased local progress.
pub open spec fn spec_interplate_frame_values<T: FrameDataValue>(
    curve: FrameCurve<T>,
    target_frame: int,
) -> T {
    let pn = spec_pre_next(curve.frames@, target_frame);
    let frame1 = curve.frames@[pn.0] as int;
    let frame2 = curve.frames@[pn.1] as int;
    let amount = spec_easing(
        curve.easing_mode,
        spec_segment_amount(frame1, frame2, target_frame),
    );
    curve.values@[pn.0].interpolate_spec(&curve.values@[pn.1], amount)
}

/// Piecewise-linear evaluation of a keyframe-value curve at a fixed-point
/// target frame.
pub fn interplate_frame_values<T: FrameDataValue>(
    curve: &FrameCurve<T>,
    target_frame: KeyFrameCurveValue,
) -> (r: T)
    requires
        curve.wf(),
        curve.curve == crate::curve::frame_curve::EFrameCurveType::FrameValues,
        curve.frames@.len() > 0,
        -0x1_0000_0000_0000 <= target_frame <= 0x1_0000_0000_0000,
    ensures
        r == spec_interplate_frame_values(*curve, target_frame as int),
{
    let (pre, next) = FrameCurve::<T>::get_pre_next_frame_index(&curve.frames, target_frame);
    let frame1 = curve.frames[pre];
    let value1 = &curve.values[pre];

    let frame2 = curve.frames[next];
    let value2 = &curve.values[next];

    let mut amount = segment_amount(frame1, frame2, target_frame);

    amount = easing_call(amount, &curve.easing_mode);

    value1.interpolate(value2, amount)
}

/// What [`interplate_frame_values_step`] returns: the nearer of the two
/// bracketing samples.
pub open spec fn spec_interplate_frame_values_step<T: FrameDataValue>(
    curve: FrameCurve<T>,
    target_frame: int,
) -> T {
    let pn = spec_pre_next(curve.frames@, target_frame);
    let frame1 = curve.frames@[pn.0] as int;
    let frame2 = curve.frames@[pn.1] as int;
    let amount = spec_segment_amount(frame1, frame2, target_frame);
    if amount < FX_HALF as int {
        curve.values@[pn.0]
    } else {
        curve.values@[pn.1]
    }
}

/// Nearest-neighbour evaluation of a keyframe-value curve: the left sample
/// below the midpoint of the segment, the right sample from there on.
pub fn interplate_frame_values_step<T: FrameDataValue>(
    curve: &FrameCurve<T>,
    target_frame: KeyFrameCurveValue,
) -> (r: T)
    requires
        curve.wf(),
        curve.curve == crate::curve::frame_curve::EFrameCurveType::FrameValues,
        curve.frames@.len() > 0,
        -0x1_0000_0000_0000 <= target_frame <= 0x1_0000_0000_0000,
    ensures
        r == spec_interplate_frame_values_step(*curve, target_frame as int),
{
    let (pre, next) = FrameCurve::<T>::get_pre_next_frame_index(&curve.frames, target_frame);
    let frame1 = curve.frames[pre];
    let value1 = &curve.values[pre];

    let frame2 = curve.frames[next];
    let value2 = &curve.values[next];

    let amount = segment_amount(frame1, frame2, target_frame);

    if amount < FX_HALF {
        value1.clone_value()
    } else {
        value2.clone_value()
    }
}

/// What [`interplate_minmaxcurve`] returns: the Hermite blend of the two
/// bracketing keyframes, applied to the curve's (offset, scalar) pair.
pub open spec fn spec_interplate_minmaxcurve<T: FrameDataValue>(
    curve: FrameCurve<T>,
    target_frame: int,
) -> T {
    let pn = spec_pre_next(curve.frames@, target_frame);
    let frame1 = curve.frames@[pn.0] as int;
    let frame2 = curve.frames@[pn.1] as int;
    let amount0 = spec_segment_amount(frame1, frame2, target_frame);
    let amount = spec_hermite(
        curve.curve_values@[pn.0].spec_value() as int,
        curve.curve_values@[pn.0].spec_outtangent() as int,
        curve.curve_values@[pn.1].spec_value() as int,
        curve.curve_values@[pn.1].spec_intangent() as int,
        amount0,
    );
    curve.value_offset.unwrap().append_spec(&curve.value_scalar.unwrap(), amount)
}

/// Hermite (min-max) evaluation: blends the bracketing keyframes' values
/// and tangents, then applies the result to the (offset, scalar) pair.
pub fn interplate_minmaxcurve<T: FrameDataValue>(
    curve: &FrameCurve<T>,
    target_frame: KeyFrameCurveValue,
) -> (r: T)
    requires
        curve.wf(),
        curve.curve == crate::curve::frame_curve::EFrameCurveType::MinMaxCurve,
        curve.frames@.len() > 0,
        -0x1_0000_0000_0000 <= target_frame <= 0x1_0000_0000_0000,
    ensures
        r == spec_interplate_minmaxcurve(*curve, target_frame as int),
{
    let (pre, next) = FrameCurve::<T>::get_pre_next_frame_index(&curve.frames, target_frame);

    let frame1 = curve.frames[pre];
    let frame2 = curve.frames[next];

    let value1 = *curve.curve_values[pre].value();
    let value2 = *curve.curve_values[next].value();

    let tangent1 = *curve.curve_values[pre].outtangent();
    let tangent2 = *curve.curve_values[next].intangent();

    let amount0 = segment_amount(frame1, frame2, target_frame);
    let amount = hermite(value1, tangent1, value2, tangent2, amount0);

    curve.value_offset.as_ref().unwrap().append(curve.value_scalar.as_ref().unwrap(), amount)
}

/// The clamped fraction of the target frame within the curve's total span.
pub open spec fn spec_span_amount(frame_number: int, target_frame: int) -> int {
    fx_clamp01(fx_div(target_frame, frame_number * (FX_ONE as int)))
}

/// What [`interplate_easing`] returns: the span fraction remapped by the
/// curve's easing mode and applied to the (offset, scalar) pair.
pub open spec fn spec_interplate_easing<T: FrameDataValue>(
    curve: FrameCurve<T>,
    target_frame: int,
) -> T {
    let amount = spec_easing(
        curve.easing_mode,
        spec_span_amount(curve.frame_number as int, target_frame),
    );
    curve.value_offset.unwrap().append_spec(&curve.value_scalar.unwrap(), amount)
}

/// Easing evaluation: `offset + scalar * easing(target / span)`.
pub fn interplate_easing<T: FrameDataValue>(
    curve: &FrameCurve<T>,
    target_frame: KeyFrameCurveValue,
) -> (r: T)
    requires
        curve.wf(),
        curve.curve == crate::curve::frame_curve::EFrameCurveType::EasingCurve,
        -0x1_0000_0000_0000 <= target_frame <= 0x1_0000_0000_0000,
    ensures
        r == spec_interplate_easing(*curve, target_frame as int),
{
    let mut amount = clamp01(div_fx(target_frame, (curve.frame_number as i64) * FX_ONE));

    amount = easing_call(amount, &curve.easing_mode);

    curve.value_offset.as_ref().unwrap().append(curve.value_scalar.as_ref().unwrap(), amount)
}

/// What [`interplate_cubebezier`] returns: the span fraction remapped by
/// the curve's Bézier parameters and applied to the (offset, scalar) pair.
pub open spec fn spec_interplate_cubebezier<T: FrameDataValue>(
    curve: FrameCurve<T>,
    target_frame: int,
) -> T {
    let amount = spec_cubic_bezier(
        curve.cubic_bezier_args.0 as int,
        curve.cubic_bezier_args.1 as int,
        curve.cubic_bezier_args.2 as int,
        curve.cubic_bezier_args.3 as int,
        spec_span_amount(curve.frame_number as int, target_frame),
    );
    curve.value_offset.unwrap().append_spec(&curve.value_scalar.unwrap(), amount)
}

/// Cubic-Bézier evaluation: `offset + scalar * bezier(target / span)`. The
/// amount calculator is not consulted; the curve's own control parameters
/// define the remap.
pub fn interplate_cubebezier<T: FrameDataValue>(
    curve: &FrameCurve<T>,
    target_frame: KeyFrameCurveValue,
    _amountcalc: &AnimationAmountCalc,
) -> (r: T)
    requires
        curve.wf(),
        curve.curve == crate::curve::frame_curve::EFrameCurveType::CubicBezierCurve,
        -0x1_0000_0000_0000 <= target_frame <= 0x1_0000_0000_0000,
    ensures
        r == spec_interplate_cubebezier(*curve, target_frame as int),
{
    let amount0 = clamp01(div_fx(target_frame, (curve.frame_number as i64) * FX_ONE));

    let amount = cubic_bezier(
        curve.cubic_bezier_args.0,
        curve.cubic_bezier_args.1,
        curve.cubic_bezier_args.2,
        curve.cubic_bezier_args.3,
        amount0,
    );

    curve.value_offset.as_ref().unwrap().append(curve.value_scalar.as_ref().unwrap(), amount)
}

/// What [`interplate_cubic_splice`] returns: a Hermite blend of the two
/// bracketing generic keyframes, the local progress first remapped by the
/// amount calculator, and the tangents divided by the segment's duration in
/// seconds.
pub open spec fn spec_interplate_cubic_splice<T: FrameDataValue + FrameValueScale>(
    curve: FrameCurve<T>,
    target_frame: int,
    amountcalc: AnimationAmountCalc,
) -> T {
    let pn = spec_pre_next(curve.frames@, target_frame);
    let frame1 = curve.frames@[pn.0] as int;
    let frame2 = curve.frames@[pn.1] as int;
    let amount = if frame1 == frame2 {
        0
    } else {
        fx_clamp01(
            spec_amount_calc(
                amountcalc.spec_mode(),
                amountcalc.spec_param(),
                spec_segment_amount(frame1, frame2, target_frame),
            ),
        )
    };
    let delta_sec = fx_div(
        (frame2 - frame1) * (FX_ONE as int),
        curve.design_frame_per_second as int * (FX_ONE as int),
    );
    let value1 = curve.cubic_spline_values@[pn.0].spec_value();
    let value2 = curve.cubic_spline_values@[pn.1].spec_value();
    let tangent1 = curve.cubic_spline_values@[pn.0].spec_outtangent();
    let tangent2 = curve.cubic_spline_values@[pn.1].spec_intangent();
    if delta_sec > 0 {
        let inv = fx_div(FX_ONE as int, delta_sec);
        T::hermite_spec(
            &value1,
            &tangent1.scale_spec(inv),
            &value2,
            &tangent2.scale_spec(inv),
            amount,
        )
    } else {
        T::hermite_spec(&value1, &tangent1, &value2, &tangent2, amount)
    }
}

/// Cubic-spline evaluation over generic keyframes: the local progress runs
/// through the amount calculator, and the stored time-normalized tangents
/// are divided by the segment duration in seconds before blending.
pub fn interplate_cubic_splice<T: FrameDataValue + FrameValueScale>(
    curve: &FrameCurve<T>,
    target_frame: KeyFrameCurveValue,
    amountcalc: &AnimationAmountCalc,
) -> (r: T)
    requires
        crate::curve::frame_curve::spec_frames_sorted(curve.frames@),
        curve.cubic_spline_values@.len() == curve.frames@.len(),
        curve.frames@.len() > 0,
        curve.design_frame_per_second > 0,
        amountcalc.wf(),
        -0x1_0000_0000_0000 <= target_frame <= 0x1_0000_0000_0000,
    ensures
        r == spec_interplate_cubic_splice(*curve, target_frame as int, *amountcalc),
{
    let (pre, next) = FrameCurve::<T>::get_pre_next_frame_index(&curve.frames, target_frame);

    let frame1 = curve.frames[pre];
    let frame2 = curve.frames[next];

    let value1 = curve.cubic_spline_values[pre].value();
    let value2 = curve.cubic_spline_values[next].value();

    let tangent1 = curve.cubic_spline_values[pre].outtangent();
    let tangent2 = curve.cubic_spline_values[next].intangent();

    let amount = if frame1 == frame2 {
        0
    } else {
        clamp01(amountcalc.calc(segment_amount(frame1, frame2, target_frame)))
    };

    let delta_sec = div_fx(
        ((frame2 as i64) - (frame1 as i64)) * FX_ONE,
        (curve.design_frame_per_second as i64) * FX_ONE,
    );

    if delta_sec > 0 {
        let inv = div_fx(FX_ONE, delta_sec);
        T::hermite(value1, &tangent1.scale(inv), value2, &tangent2.scale(inv), amount)
    } else {
        T::hermite(value1, tangent1, value2, tangent2, amount)
    }
}

} // verus!
