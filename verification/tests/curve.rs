//! Curve container, segment locator and end-to-end evaluation tests.

use pi_curves::amount::AnimationAmountCalc;
use pi_curves::curve::frame::{CurveFrameValue, FrameDataValue, FrameValueScale,
    KeyFrameDataTypeAllocator, Vector3};
use pi_curves::curve::frame_curve::{EFrameCurveType, FrameCurve};
use pi_curves::curve::curves::{interplate_cubic_splice, interplate_frame_values,
    interplate_frame_values_step, interplate_minmaxcurve, interplate_easing,
    interplate_cubebezier};
use pi_curves::easing::EEasingMode;
use pi_curves::fixed::FX_ONE;
use pi_curves::hermite::hermite;

fn fx(frames: f64) -> i64 {
    (frames * FX_ONE as f64) as i64
}

#[test]
fn segment_locator_brackets_gaps_and_clamps_edges() {
    let frames: Vec<u16> = vec![0, 30, 60];
    // A query inside a gap brackets it.
    assert_eq!(FrameCurve::<i64>::get_pre_next_frame_index(&frames, fx(45.0)), (1, 2));
    // An exact hit pairs with the right neighbour.
    assert_eq!(FrameCurve::<i64>::get_pre_next_frame_index(&frames, 0), (0, 1));
    assert_eq!(FrameCurve::<i64>::get_pre_next_frame_index(&frames, fx(30.0)), (1, 2));
    // A hit on the last frame clamps at the end.
    assert_eq!(FrameCurve::<i64>::get_pre_next_frame_index(&frames, fx(60.0)), (2, 2));
    // Before the range: clamp to the first sample twice.
    assert_eq!(FrameCurve::<i64>::get_pre_next_frame_index(&frames, fx(-5.0)), (0, 0));
    // After the range: clamp to the last sample twice.
    assert_eq!(FrameCurve::<i64>::get_pre_next_frame_index(&frames, fx(100.0)), (2, 2));
}

#[test]
fn frame_values_curve_midpoint_is_half() {
    // Frames [0, 60] with values [0, 1] at design rate 60, queried at 0.5
    // seconds (frame 30): exactly one half.
    let mut curve = FrameCurve::<i64>::curve_frame_values(60);
    curve.curve_frame_values_frame(0, 0);
    curve.curve_frame_values_frame(60, FX_ONE);
    assert_eq!(curve.interple(FX_ONE / 2), FX_ONE / 2);
    assert_eq!(curve.interple(0), 0);
    assert_eq!(curve.interple(FX_ONE), FX_ONE);
}

#[test]
fn insertion_keeps_frames_sorted_and_bounds_fresh() {
    let mut curve = FrameCurve::<i64>::curve_frame_values(60);
    curve.curve_frame_values_frame(60, 600);
    curve.curve_frame_values_frame(0, 0);
    curve.curve_frame_values_frame(30, 300);
    assert_eq!(curve.frames, vec![0, 30, 60]);
    assert_eq!(curve.values, vec![0, 300, 600]);
    assert_eq!(curve.min_frame, 0);
    assert_eq!(curve.max_frame, 60);
    assert_eq!(curve.frame_number, 60);
}

#[test]
fn insertion_order_does_not_change_evaluation() {
    let samples: [(u16, i64); 4] = [(0, 0), (20, 9000), (40, -3000), (60, FX_ONE)];
    let mut sorted_curve = FrameCurve::<i64>::curve_frame_values(60);
    for (f, v) in samples {
        sorted_curve.curve_frame_values_frame(f, v);
    }
    let mut shuffled_curve = FrameCurve::<i64>::curve_frame_values(60);
    for (f, v) in [samples[2], samples[0], samples[3], samples[1]] {
        shuffled_curve.curve_frame_values_frame(f, v);
    }
    assert_eq!(sorted_curve.frames, shuffled_curve.frames);
    assert_eq!(sorted_curve.values, shuffled_curve.values);
    for i in 0..=12 {
        let t = i * 5461;
        assert_eq!(sorted_curve.interple(t), shuffled_curve.interple(t));
    }
}

#[test]
fn easing_curve_linear_midpoint_is_half() {
    // Offset 0, scalar 1, span 60 frames at rate 60, mode Linear: frame 30
    // of 60 yields one half.
    let curve = FrameCurve::<i64>::curve_easing(0, FX_ONE, 60, 60, EEasingMode::Linear);
    assert_eq!(curve.interple(FX_ONE / 2), FX_ONE / 2);
    assert_eq!(curve.interple(0), 0);
    assert_eq!(curve.interple(FX_ONE), FX_ONE);
}

#[test]
fn easing_curve_applies_named_mode() {
    let curve = FrameCurve::<i64>::curve_easing(0, FX_ONE, 60, 60, EEasingMode::QuadIn);
    // Frame 30 of 60: quad_in(1/2) = 1/4.
    assert_eq!(curve.interple(FX_ONE / 2), FX_ONE / 4);
}

#[test]
fn cubic_bezier_curve_identity_midpoint() {
    let curve = FrameCurve::<i64>::curve_cubic_bezier(0, FX_ONE, 60, 60, 0, 0, FX_ONE, FX_ONE);
    assert_eq!(curve.interple(FX_ONE / 2), FX_ONE / 2);
    assert_eq!(curve.interple(0), 0);
    assert_eq!(curve.interple(FX_ONE), FX_ONE);
}

#[test]
fn hermite_constant_curve_is_invariant() {
    // Hermite(v, 0, v, 0, t) == v, for every progress and signed values.
    for v in [0i64, 1, -1, FX_ONE, -FX_ONE, 123456789, -987654321] {
        for i in 0..=16 {
            let t = i * 4096;
            assert_eq!(hermite(v, 0, v, 0, t), v);
        }
    }
}

#[test]
fn minmax_curve_regression_value() {
    // Samples (frame 0, value 0, tangents 2/2) and (frame 60, value 1,
    // tangents 2/2), rate 60, queried at frame 10 (local fraction 1/6).
    let mut curve = FrameCurve::<i64>::curve_minmax_curve(0, FX_ONE, 60);
    curve.curve_minmax_curve_frame(0, 0, 2 * FX_ONE, 2 * FX_ONE);
    curve.curve_minmax_curve_frame(60, FX_ONE, 2 * FX_ONE, 2 * FX_ONE);
    // 10 frames in fixed point.
    let r = FrameCurve::minmaxcurve(&curve, fx(10.0));
    assert_eq!(r, 16990);
    // The same Hermite value from the evaluator directly.
    assert_eq!(hermite(0, 2 * FX_ONE, FX_ONE, 2 * FX_ONE, 10922), 16990);
}

#[test]
fn minmax_insertion_is_order_independent_too() {
    let mut c1 = FrameCurve::<i64>::curve_minmax_curve(0, FX_ONE, 60);
    c1.curve_minmax_curve_frame(0, 0, 2 * FX_ONE, 2 * FX_ONE);
    c1.curve_minmax_curve_frame(30, FX_ONE / 2, 0, 0);
    c1.curve_minmax_curve_frame(60, FX_ONE, 2 * FX_ONE, 2 * FX_ONE);
    let mut c2 = FrameCurve::<i64>::curve_minmax_curve(0, FX_ONE, 60);
    c2.curve_minmax_curve_frame(60, FX_ONE, 2 * FX_ONE, 2 * FX_ONE);
    c2.curve_minmax_curve_frame(0, 0, 2 * FX_ONE, 2 * FX_ONE);
    c2.curve_minmax_curve_frame(30, FX_ONE / 2, 0, 0);
    assert_eq!(c1.frames, c2.frames);
    for i in 0..=12 {
        let t = i * 5461;
        assert_eq!(c1.interple(t), c2.interple(t));
    }
}

#[test]
fn step_variant_picks_nearest_sample() {
    let mut curve = FrameCurve::<i64>::curve_frame_values(60);
    curve.curve_frame_values_frame(0, 100);
    curve.curve_frame_values_frame(60, 200);
    // Below the midpoint of the segment: the left sample.
    assert_eq!(interplate_frame_values_step(&curve, fx(10.0)), 100);
    // From the midpoint on: the right sample.
    assert_eq!(interplate_frame_values_step(&curve, fx(40.0)), 200);
}

#[test]
fn free_kernels_match_methods() {
    let mut fv = FrameCurve::<i64>::curve_frame_values(60);
    fv.curve_frame_values_frame(0, 0);
    fv.curve_frame_values_frame(60, FX_ONE);
    assert_eq!(interplate_frame_values(&fv, fx(30.0)), FrameCurve::frame_values(&fv, fx(30.0)));

    let easing = FrameCurve::<i64>::curve_easing(0, FX_ONE, 60, 60, EEasingMode::SineOut);
    assert_eq!(interplate_easing(&easing, fx(30.0)), FrameCurve::easing(&easing, fx(30.0)));

    let bez = FrameCurve::<i64>::curve_cubic_bezier(0, FX_ONE, 60, 60, 27525, 0, 38010, FX_ONE);
    let calc = AnimationAmountCalc::default();
    assert_eq!(
        interplate_cubebezier(&bez, fx(45.0), &calc),
        FrameCurve::cubebezier(&bez, fx(45.0))
    );

    let mut mm = FrameCurve::<i64>::curve_minmax_curve(0, FX_ONE, 60);
    mm.curve_minmax_curve_frame(0, 0, 0, 0);
    mm.curve_minmax_curve_frame(60, FX_ONE, 0, 0);
    assert_eq!(interplate_minmaxcurve(&mm, fx(20.0)), FrameCurve::minmaxcurve(&mm, fx(20.0)));
}

#[test]
fn cubic_splice_blends_generic_keyframes() {
    let mut curve = FrameCurve::<i64>::curve_minmax_curve(0, FX_ONE, 60);
    curve.frames = vec![0, 60];
    curve.cubic_spline_values = vec![
        CurveFrameValue::new(0, (2 * FX_ONE, 2 * FX_ONE)),
        CurveFrameValue::new(FX_ONE, (2 * FX_ONE, 2 * FX_ONE)),
    ];
    let calc = AnimationAmountCalc::default();
    // Segment spans one second, so the tangent scaling divides by 1 and
    // the blend agrees with the scalar evaluator up to per-term rounding.
    let r = interplate_cubic_splice(&curve, fx(10.0), &calc);
    assert_eq!(r, 16990);
}

#[test]
fn vector_values_interpolate_componentwise() {
    let a = Vector3 { x: 0, y: FX_ONE, z: -FX_ONE };
    let b = Vector3 { x: FX_ONE, y: 3 * FX_ONE, z: FX_ONE };
    let mid = a.interpolate(&b, FX_ONE / 2);
    assert_eq!(mid, Vector3 { x: FX_ONE / 2, y: 2 * FX_ONE, z: 0 });
    assert_eq!(a.interpolate(&b, 0), a);
    assert_eq!(a.interpolate(&b, FX_ONE), b);
    let scaled = b.scale(FX_ONE / 4);
    assert_eq!(scaled, Vector3 { x: FX_ONE / 4, y: 3 * FX_ONE / 4, z: FX_ONE / 4 });
}

#[test]
fn unsigned_values_scale_with_saturation() {
    let v: u8 = 200;
    assert_eq!(v.scale(FX_ONE / 2), 100u8);
    assert_eq!(v.scale(2 * FX_ONE), 255u8);
    assert_eq!(v.scale(-FX_ONE), 0u8);
    assert_eq!(v.vadd(&200u8), 255u8);
    assert_eq!(100u8.interpolate(&200u8, FX_ONE / 2), 150u8);
    let big: u64 = 1 << 40;
    assert_eq!(big.scale(FX_ONE / 2), 1 << 39);
}

#[test]
fn allocator_hands_out_sequential_ids() {
    let mut alloc_ids = KeyFrameDataTypeAllocator::default();
    assert_eq!(alloc_ids.allocate(), Ok(0));
    assert_eq!(alloc_ids.allocate(), Ok(1));
    assert_eq!(alloc_ids.allocate(), Ok(2));
}

#[test]
fn curve_kinds_are_tagged() {
    let fv = FrameCurve::<i64>::curve_frame_values(24);
    assert_eq!(fv.curve, EFrameCurveType::FrameValues);
    assert_eq!(fv.design_frame_per_second, 24);
    let ez = FrameCurve::<i64>::curve_easing(0, FX_ONE, 10, 24, EEasingMode::Linear);
    assert_eq!(ez.curve, EFrameCurveType::EasingCurve);
    let mm = FrameCurve::<i64>::curve_minmax_curve(0, FX_ONE, 24);
    assert_eq!(mm.curve, EFrameCurveType::MinMaxCurve);
    let cb = FrameCurve::<i64>::curve_cubic_bezier(0, FX_ONE, 10, 24, 0, 0, FX_ONE, FX_ONE);
    assert_eq!(cb.curve, EFrameCurveType::CubicBezierCurve);
}
