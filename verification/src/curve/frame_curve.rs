//! The curve container: keyframe storage, segment lookup and dispatch.

use vstd::prelude::*;
use crate::fixed::FX_ONE;
use crate::easing::EEasingMode;
use crate::curve::{FrameIndex, FramePerSecond};
use crate::curve::frame::{FrameDataValue, KeyFrameCurveValue, KeyFrame, CurveFrameValue};

verus! {

/// The curve kinds, each evaluated by its own kernel.
#[derive(Clone, Copy, Debug, PartialEq, Eq, Structural)]
pub enum EFrameCurveType {
    /// Keyframe value pairs, linearly interpolated.
    FrameValues,
    /// A single (offset, scalar) pair remapped by a named easing.
    EasingCurve,
    /// Hermite keyframes with tangents.
    MinMaxCurve,
    /// A single (offset, scalar) pair remapped by a 2D cubic Bézier.
    CubicBezierCurve,
}

/// Frames are non-decreasing.
pub open spec fn spec_frames_sorted(frames: Seq<FrameIndex>) -> bool {
    forall|i: int, j: int| 0 <= i <= j < frames.len() ==> frames[i] <= frames[j]
}

/// The number of leading entries strictly below `f`: the position where a
/// sample at frame `f` is inserted, and the pivot of segment lookup.
pub open spec fn spec_lower_bound(frames: Seq<FrameIndex>, f: int) -> int
    decreases frames.len(),
{
    if frames.len() == 0 {
        0
    } else if frames[0] as int >= f {
        0
    } else {
        1 + spec_lower_bound(frames.subrange(1, frames.len() as int), f)
    }
}

/// `spec_lower_bound` marks the first entry at or above `f`.
pub proof fn lemma_lower_bound_props(frames: Seq<FrameIndex>, f: int)
    ensures
        0 <= spec_lower_bound(frames, f) <= frames.len(),
        forall|i: int| 0 <= i < spec_lower_bound(frames, f) ==> ((#[trigger] frames[i]) as int) < f,
        spec_lower_bound(frames, f) < frames.len() ==> frames[spec_lower_bound(frames, f)] as int
            >= f,
    decreases frames.len(),
{
    if frames.len() == 0 {
    } else if frames[0] as int >= f {
    } else {
        let rest = frames.subrange(1, frames.len() as int);
        lemma_lower_bound_props(rest, f);
        assert forall|i: int| 0 <= i < spec_lower_bound(frames, f) implies ((
        #[trigger] frames[i]) as int) < f by {
            if i > 0 {
                assert(rest[i - 1] == frames[i]);
            }
        }
    }
}

/// The segment of a query time in a sorted frame sequence: the pair of
/// indices whose frames bracket the (truncated) target frame.
///
/// A query before the range clamps to (0, 0) and one after the range to the
/// last index twice. An exact hit at index `i` pairs it with its right
/// neighbour, or with itself at the end. A query inside a gap brackets it
/// as `(left, right)`; earlier revisions of this lookup collapsed a gap to
/// its left neighbour twice, which is corrected here deliberately.
pub open spec fn spec_pre_next(frames: Seq<FrameIndex>, target_frame: int) -> (int, int) {
    if target_frame < 0 {
        (0, 0)
    } else {
        let tf = target_frame / (FX_ONE as int);
        let f = if tf > 65535 {
            65535
        } else {
            tf
        };
        let p = spec_lower_bound(frames, f);
        if p < frames.len() && frames[p] as int == f {
            if p >= frames.len() - 1 {
                (p, p)
            } else {
                (p, p + 1)
            }
        } else if p == 0 {
            (0, 0)
        } else if p >= frames.len() {
            (frames.len() - 1, frames.len() - 1)
        } else {
            (p - 1, p)
        }
    }
}

fn lower_bound(frames: &Vec<FrameIndex>, f: FrameIndex) -> (r: usize)
    requires
        spec_frames_sorted(frames@),
    ensures
        r as int == spec_lower_bound(frames@, f as int),
        r <= frames@.len(),
{
    let mut lo: usize = 0;
    let mut hi: usize = frames.len();
    while lo < hi
        invariant
            lo <= hi <= frames@.len(),
            spec_frames_sorted(frames@),
            forall|i: int| 0 <= i < lo ==> (#[trigger] frames@[i]) < f,
            forall|i: int| hi <= i < frames@.len() ==> (#[trigger] frames@[i]) >= f,
        decreases hi - lo,
    {
        let mid = lo + (hi - lo) / 2;
        if frames[mid] < f {
            lo = mid + 1;
        } else {
            hi = mid;
        }
    }
    proof {
        lemma_lower_bound_props(frames@, f as int);
        let lb = spec_lower_bound(frames@, f as int);
        if lb < lo {
            assert(frames@[lb] as int >= f);
        }
        if lb > lo {
            assert((frames@[lo as int] as int) < f);
        }
    }
    lo
}

/// An evaluable keyframe curve: its kind, its samples, and the parameters
/// of its remapping stage.
pub struct FrameCurve<T: FrameDataValue> {
    /// Which kernel evaluates this curve.
    pub curve: EFrameCurveType,
    /// Easing applied to the normalized progress.
    pub easing_mode: EEasingMode,
    /// Control parameters (x1, y1, x2, y2) of a cubic Bézier curve.
    pub cubic_bezier_args: (KeyFrameCurveValue, KeyFrameCurveValue, KeyFrameCurveValue,
        KeyFrameCurveValue),
    /// Frames per second the curve was designed against.
    pub design_frame_per_second: FramePerSecond,
    /// Hermite keyframes (MinMaxCurve kind).
    pub curve_values: Vec<KeyFrame>,
    /// Generic keyframes with tangents (cubic-spline evaluation).
    pub cubic_spline_values: Vec<CurveFrameValue<T>>,
    /// The sorted frame numbers of the samples.
    pub frames: Vec<FrameIndex>,
    /// The sample values parallel to `frames` (FrameValues kind).
    pub values: Vec<T>,
    /// Start value of easing / Bézier curves.
    pub value_offset: Option<T>,
    /// Value extent of easing / Bézier curves.
    pub value_scalar: Option<T>,
    /// First frame.
    pub min_frame: FrameIndex,
    /// Last frame.
    pub max_frame: FrameIndex,
    /// Total frame span.
    pub frame_number: FrameIndex,
}

impl<T: FrameDataValue> FrameCurve<T> {
    /// Structural soundness: frames sorted, the payload of the active kind
    /// parallel to them, bounds consistent, and the parameters the active
    /// kernel reads admissible.
    pub open spec fn wf(&self) -> bool {
        &&& spec_frames_sorted(self.frames@)
        &&& match self.curve {
            EFrameCurveType::FrameValues => self.values@.len() == self.frames@.len(),
            EFrameCurveType::MinMaxCurve => self.curve_values@.len() == self.frames@.len()
                && self.value_offset is Some && self.value_scalar is Some,
            EFrameCurveType::EasingCurve => self.value_offset is Some && self.value_scalar is Some
                && self.frame_number > 0,
            EFrameCurveType::CubicBezierCurve => self.value_offset is Some
                && self.value_scalar is Some && self.frame_number > 0 && 0
                <= self.cubic_bezier_args.0 <= FX_ONE && 0 <= self.cubic_bezier_args.2 <= FX_ONE
                && -0x10_0000 <= self.cubic_bezier_args.1 <= 0x10_0000 && -0x10_0000
                <= self.cubic_bezier_args.3 <= 0x10_0000,
        }
    }

    /// A curve the evaluation entry point accepts: well-formed, with at
    /// least one sample where the kernel looks samples up.
    pub open spec fn evaluable(&self) -> bool {
        &&& self.wf()
        &&& match self.curve {
            EFrameCurveType::FrameValues => self.frames@.len() > 0,
            EFrameCurveType::MinMaxCurve => self.frames@.len() > 0,
            EFrameCurveType::EasingCurve => true,
            EFrameCurveType::CubicBezierCurve => true,
        }
    }

    /// A fresh keyframe-value curve (no samples yet), to be filled through
    /// [`FrameCurve::curve_frame_values_frame`].
    pub fn curve_frame_values(design_frame_per_second: FramePerSecond) -> (r: FrameCurve<T>)
        ensures
            r.wf(),
            r.curve == EFrameCurveType::FrameValues,
            r.easing_mode == EEasingMode::Linear,
            r.design_frame_per_second == design_frame_per_second,
            r.frames@.len() == 0,
            r.values@.len() == 0,
    {
        FrameCurve {
            curve: EFrameCurveType::FrameValues,
            easing_mode: EEasingMode::Linear,
            cubic_bezier_args: (0, 0, FX_ONE, FX_ONE),
            frames: Vec::new(),
            curve_values: Vec::new(),
            cubic_spline_values: Vec::new(),
            values: Vec::new(),
            value_offset: None,
            value_scalar: None,
            min_frame: FrameIndex::MAX,
            max_frame: FrameIndex::MIN,
            design_frame_per_second,
            frame_number: 0,
        }
    }

    /// Inserts a keyframe (frame, value) at its binary-search position, so
    /// the frame sequence stays sorted, and refreshes the bounds.
    pub fn curve_frame_values_frame(&mut self, frame: FrameIndex, value: T)
        requires
            old(self).wf(),
            old(self).curve == EFrameCurveType::FrameValues,
            old(self).frames@.len() < 100_000_000,
        ensures
            final(self).wf(),
            final(self).frames@ == old(self).frames@.insert(
                spec_lower_bound(old(self).frames@, frame as int),
                frame,
            ),
            final(self).values@ == old(self).values@.insert(
                spec_lower_bound(old(self).frames@, frame as int),
                value,
            ),
            final(self).curve == old(self).curve,
            final(self).easing_mode == old(self).easing_mode,
            final(self).cubic_bezier_args == old(self).cubic_bezier_args,
            final(self).design_frame_per_second == old(self).design_frame_per_second,
            final(self).curve_values@ == old(self).curve_values@,
            final(self).cubic_spline_values@ == old(self).cubic_spline_values@,
            final(self).value_offset == old(self).value_offset,
            final(self).value_scalar == old(self).value_scalar,
            final(self).min_frame == final(self).frames@[0],
            final(self).max_frame == final(self).frames@[final(self).frames@.len() - 1],
            final(self).frame_number == final(self).max_frame - final(self).min_frame,
    {
        proof {
            lemma_lower_bound_props(self.frames@, frame as int);
            lemma_insert_at_lower_bound_sorted(self.frames@, frame);
        }
        let index = lower_bound(&self.frames, frame);
        self.frames.insert(index, frame);
        self.values.insert(index, value);

        let len = self.frames.len();
        let min = self.frames[0];
        let max = self.frames[len - 1];

        proof {
            assert(self.frames@[0] <= self.frames@[len - 1]);
        }
        self.min_frame = min;
        self.max_frame = max;
        self.frame_number = max - min;
    }

    /// A fresh easing curve: `offset + scalar * easing(t / span)`. A zero
    /// span must be rejected by the caller before construction.
    pub fn curve_easing(from: T, scalar: T, frame_count: FrameIndex,
        design_frame_per_second: FramePerSecond, easing_mode: EEasingMode) -> (r: FrameCurve<T>)
        requires
            frame_count > 0,
        ensures
            r.wf(),
            r.curve == EFrameCurveType::EasingCurve,
            r.easing_mode == easing_mode,
            r.design_frame_per_second == design_frame_per_second,
            r.value_offset == Some(from),
            r.value_scalar == Some(scalar),
            r.min_frame == 0,
            r.max_frame == frame_count,
            r.frame_number == frame_count,
    {
        FrameCurve {
            curve: EFrameCurveType::EasingCurve,
            easing_mode,
            cubic_bezier_args: (0, 0, FX_ONE, FX_ONE),
            frames: Vec::new(),
            curve_values: Vec::new(),
            cubic_spline_values: Vec::new(),
            values: Vec::new(),
            value_offset: Some(from),
            value_scalar: Some(scalar),
            min_frame: 0,
            max_frame: frame_count,
            frame_number: frame_count,
            design_frame_per_second,
        }
    }

    /// A fresh cubic-Bézier curve: `offset + scalar * bezier(t / span)`. A
    /// zero span must be rejected by the caller before construction.
    pub fn curve_cubic_bezier(from: T, scalar: T, frame_count: FrameIndex,
        design_frame_per_second: FramePerSecond, x1: KeyFrameCurveValue, y1: KeyFrameCurveValue,
        x2: KeyFrameCurveValue, y2: KeyFrameCurveValue) -> (r: FrameCurve<T>)
        requires
            frame_count > 0,
            0 <= x1 <= FX_ONE,
            0 <= x2 <= FX_ONE,
            -0x10_0000 <= y1 <= 0x10_0000,
            -0x10_0000 <= y2 <= 0x10_0000,
        ensures
            r.wf(),
            r.curve == EFrameCurveType::CubicBezierCurve,
            r.cubic_bezier_args == (x1, y1, x2, y2),
            r.design_frame_per_second == design_frame_per_second,
            r.value_offset == Some(from),
            r.value_scalar == Some(scalar),
            r.min_frame == 0,
            r.max_frame == frame_count,
            r.frame_number == frame_count,
    {
        FrameCurve {
            curve: EFrameCurveType::CubicBezierCurve,
            easing_mode: EEasingMode::Linear,
            cubic_bezier_args: (x1, y1, x2, y2),
            frames: Vec::new(),
            curve_values: Vec::new(),
            cubic_spline_values: Vec::new(),
            values: Vec::new(),
            value_offset: Some(from),
            value_scalar: Some(scalar),
            min_frame: 0,
            max_frame: frame_count,
            frame_number: frame_count,
            design_frame_per_second,
        }
    }

    /// A fresh Hermite (min-max) curve, to be filled through
    /// [`FrameCurve::curve_minmax_curve_frame`].
    pub fn curve_minmax_curve(from: T, scalar: T, design_frame_per_second: FramePerSecond) -> (r:
        FrameCurve<T>)
        ensures
            r.wf(),
            r.curve == EFrameCurveType::MinMaxCurve,
            r.design_frame_per_second == design_frame_per_second,
            r.value_offset == Some(from),
            r.value_scalar == Some(scalar),
            r.frames@.len() == 0,
            r.curve_values@.len() == 0,
    {
        FrameCurve {
            curve: EFrameCurveType::MinMaxCurve,
            easing_mode: EEasingMode::Linear,
            cubic_bezier_args: (0, 0, FX_ONE, FX_ONE),
            frames: Vec::new(),
            curve_values: Vec::new(),
            cubic_spline_values: Vec::new(),
            values: Vec::new(),
            value_offset: Some(from),
            value_scalar: Some(scalar),
            min_frame: FrameIndex::MAX,
            max_frame: FrameIndex::MIN,
            frame_number: 0,
            design_frame_per_second,
        }
    }

    /// Inserts a Hermite keyframe (frame, value, in-tangent, out-tangent)
    /// at its binary-search position and refreshes the bounds.
    pub fn curve_minmax_curve_frame(&mut self, frame: FrameIndex, value: KeyFrameCurveValue,
        intangent: KeyFrameCurveValue, outtangent: KeyFrameCurveValue)
        requires
            old(self).wf(),
            old(self).curve == EFrameCurveType::MinMaxCurve,
            old(self).frames@.len() < 100_000_000,
        ensures
            final(self).wf(),
            final(self).frames@ == old(self).frames@.insert(
                spec_lower_bound(old(self).frames@, frame as int),
                frame,
            ),
            final(self).curve_values@.len() == old(self).curve_values@.len() + 1,
            forall|k: int|
                0 <= k < spec_lower_bound(old(self).frames@, frame as int) ==> final(
                    self).curve_values@[k] == old(self).curve_values@[k],
            forall|k: int|
                spec_lower_bound(old(self).frames@, frame as int) < k < final(
                    self).curve_values@.len() ==> final(self).curve_values@[k] == old(
                    self).curve_values@[k - 1],
            final(self).curve_values@[spec_lower_bound(old(self).frames@, frame as int)]
                .spec_value() == value,
            final(self).curve_values@[spec_lower_bound(old(self).frames@, frame as int)]
                .spec_intangent() == intangent,
            final(self).curve_values@[spec_lower_bound(old(self).frames@, frame as int)]
                .spec_outtangent() == outtangent,
            final(self).curve == old(self).curve,
            final(self).easing_mode == old(self).easing_mode,
            final(self).design_frame_per_second == old(self).design_frame_per_second,
            final(self).values@ == old(self).values@,
            final(self).value_offset == old(self).value_offset,
            final(self).value_scalar == old(self).value_scalar,
            final(self).min_frame == final(self).frames@[0],
            final(self).max_frame == final(self).frames@[final(self).frames@.len() - 1],
            final(self).frame_number == final(self).max_frame - final(self).min_frame,
    {
        let keyframe = KeyFrame::new(value, (intangent, outtangent));

        proof {
            lemma_lower_bound_props(self.frames@, frame as int);
            lemma_insert_at_lower_bound_sorted(self.frames@, frame);
        }
        let index = lower_bound(&self.frames, frame);
        self.frames.insert(index, frame);
        self.curve_values.insert(index, keyframe);

        let len = self.frames.len();
        let min = self.frames[0];
        let max = self.frames[len - 1];

        proof {
            assert(self.frames@[0] <= self.frames@[len - 1]);
        }
        self.min_frame = min;
        self.max_frame = max;
        self.frame_number = max - min;
    }

    /// Locates the bracketing keyframe pair of a (fixed-point) target
    /// frame in a sorted frame array.
    pub fn get_pre_next_frame_index(frames: &Vec<FrameIndex>, target_frame: KeyFrameCurveValue)
        -> (r: (usize, usize))
        requires
            frames@.len() > 0,
            spec_frames_sorted(frames@),
        ensures
            (r.0 as int, r.1 as int) == spec_pre_next(frames@, target_frame as int),
            r.0 < frames@.len(),
            r.1 < frames@.len(),
            r.0 <= r.1,
    {
        if target_frame < 0 {
            return (0, 0);
        }
        let tf = target_frame / FX_ONE;
        let f: FrameIndex = if tf > 65535 {
            65535
        } else {
            tf as FrameIndex
        };
        proof {
            lemma_lower_bound_props(frames@, f as int);
        }
        let p = lower_bound(frames, f);
        let total_num = frames.len();
        if p < total_num && frames[p] == f {
            if p >= total_num - 1 {
                (p, p)
            } else {
                (p, p + 1)
            }
        } else if p == 0 {
            (0, 0)
        } else if p >= total_num {
            (total_num - 1, total_num - 1)
        } else {
            (p - 1, p)
        }
    }
}

/// Inserting a frame at its lower bound keeps the sequence sorted.
proof fn lemma_insert_at_lower_bound_sorted(frames: Seq<FrameIndex>, f: FrameIndex)
    requires
        spec_frames_sorted(frames),
    ensures
        spec_frames_sorted(frames.insert(spec_lower_bound(frames, f as int), f)),
{
    lemma_lower_bound_props(frames, f as int);
    let lb = spec_lower_bound(frames, f as int);
    frames.insert_ensures(lb, f);
    let newseq = frames.insert(lb, f);
    assert forall|i: int, j: int| 0 <= i <= j < newseq.len() implies newseq[i] <= newseq[j] by {
        if i < lb {
            assert(newseq[i] == frames[i]);
        }
        if j < lb {
            assert(newseq[j] == frames[j]);
        }
        if i > lb {
            assert(newseq[i] == frames[i - 1]);
            assert(frames[i - 1] >= f);
        }
        if j > lb {
            assert(newseq[j] == frames[j - 1]);
            assert(frames[j - 1] >= f);
        }
    }
}

/// What one evaluation returns, by curve kind (the target frame already in
/// fixed-point frame units).
pub open spec fn spec_curve_call<T: FrameDataValue>(curve: FrameCurve<T>, target_frame: int) -> T {
    match curve.curve {
        EFrameCurveType::FrameValues => crate::curve::curves::spec_interplate_frame_values(
            curve,
            target_frame,
        ),
        EFrameCurveType::EasingCurve => crate::curve::curves::spec_interplate_easing(
            curve,
            target_frame,
        ),
        EFrameCurveType::MinMaxCurve => crate::curve::curves::spec_interplate_minmaxcurve(
            curve,
            target_frame,
        ),
        EFrameCurveType::CubicBezierCurve => crate::curve::curves::spec_interplate_cubebezier(
            curve,
            target_frame,
        ),
    }
}

/// The evaluation kernel resolved for one curve kind: a tagged dispatcher
/// selected once at construction and applied without re-deciding the kind.
#[derive(Clone, Copy, Debug, PartialEq, Eq, Structural)]
pub struct CurveCall {
    pub kind: EFrameCurveType,
}

impl CurveCall {
    /// Runs the resolved kernel on a curve of the matching kind.
    pub fn call<T: FrameDataValue>(&self, curve: &FrameCurve<T>,
        target_frame: KeyFrameCurveValue) -> (r: T)
        requires
            curve.evaluable(),
            self.kind == curve.curve,
            -0x1_0000_0000_0000 <= target_frame <= 0x1_0000_0000_0000,
        ensures
            r == spec_curve_call(*curve, target_frame as int),
    {
        match self.kind {
            EFrameCurveType::FrameValues => FrameCurve::<T>::frame_values(curve, target_frame),
            EFrameCurveType::EasingCurve => FrameCurve::<T>::easing(curve, target_frame),
            EFrameCurveType::MinMaxCurve => FrameCurve::<T>::minmaxcurve(curve, target_frame),
            EFrameCurveType::CubicBezierCurve => FrameCurve::<T>::cubebezier(curve, target_frame),
        }
    }
}

impl<T: FrameDataValue> FrameCurve<T> {
    /// Resolves a curve kind to its evaluation kernel once, ahead of
    /// evaluation.
    pub fn get_curve_call(mode: EFrameCurveType) -> (r: CurveCall)
        ensures
            r.kind == mode,
    {
        CurveCall { kind: mode }
    }

    /// Evaluates the curve at a query time given in seconds (fixed point):
    /// the time is scaled by the design frame rate and handed to the kernel
    /// of the curve's kind.
    pub fn interple(&self, target_frame: KeyFrameCurveValue) -> (r: T)
        requires
            self.evaluable(),
            -0x1_0000_0000 <= target_frame <= 0x1_0000_0000,
        ensures
            r == spec_curve_call(
                *self,
                target_frame as int * self.design_frame_per_second as int,
            ),
    {
        let call = Self::get_curve_call(self.curve);
        proof {
            assert(-0x1_0000_0000_0000 <= (target_frame as int) * (
            self.design_frame_per_second as int) <= 0x1_0000_0000_0000) by (nonlinear_arith)
                requires
                    -0x1_0000_0000 <= target_frame as int <= 0x1_0000_0000,
                    0 <= self.design_frame_per_second as int <= 65535,
            ;
        }
        let target_frame = target_frame * (self.design_frame_per_second as i64);
        call.call(self, target_frame)
    }

    /// The keyframe-value kernel.
    pub fn frame_values(curve: &FrameCurve<T>, target_frame: KeyFrameCurveValue) -> (r: T)
        requires
            curve.evaluable(),
            curve.curve == EFrameCurveType::FrameValues,
            -0x1_0000_0000_0000 <= target_frame <= 0x1_0000_0000_0000,
        ensures
            r == crate::curve::curves::spec_interplate_frame_values(*curve, target_frame as int),
    {
        crate::curve::curves::interplate_frame_values(curve, target_frame)
    }

    /// The Hermite (min-max) kernel.
    pub fn minmaxcurve(curve: &FrameCurve<T>, target_frame: KeyFrameCurveValue) -> (r: T)
        requires
            curve.evaluable(),
            curve.curve == EFrameCurveType::MinMaxCurve,
            -0x1_0000_0000_0000 <= target_frame <= 0x1_0000_0000_0000,
        ensures
            r == crate::curve::curves::spec_interplate_minmaxcurve(*curve, target_frame as int),
    {
        crate::curve::curves::interplate_minmaxcurve(curve, target_frame)
    }

    /// The easing kernel.
    pub fn easing(curve: &FrameCurve<T>, target_frame: KeyFrameCurveValue) -> (r: T)
        requires
            curve.evaluable(),
            curve.curve == EFrameCurveType::EasingCurve,
            -0x1_0000_0000_0000 <= target_frame <= 0x1_0000_0000_0000,
        ensures
            r == crate::curve::curves::spec_interplate_easing(*curve, target_frame as int),
    {
        crate::curve::curves::interplate_easing(curve, target_frame)
    }

    /// The cubic-Bézier kernel.
    pub fn cubebezier(curve: &FrameCurve<T>, target_frame: KeyFrameCurveValue) -> (r: T)
        requires
            curve.evaluable(),
            curve.curve == EFrameCurveType::CubicBezierCurve,
            -0x1_0000_0000_0000 <= target_frame <= 0x1_0000_0000_0000,
        ensures
            r == crate::curve::curves::spec_interplate_cubebezier(*curve, target_frame as int),
    {
        let amountcalc = crate::amount::AnimationAmountCalc::default();
        crate::curve::curves::interplate_cubebezier(curve, target_frame, &amountcalc)
    }
}

/// The (frame, value) pairs of a keyframe-value curve, in storage order.
pub open spec fn spec_pairs<T>(frames: Seq<FrameIndex>, values: Seq<T>) -> Seq<(FrameIndex, T)> {
    Seq::new(frames.len(), |i: int| (frames[i], values[i]))
}

/// Frames strictly increase: no two samples share a frame.
pub open spec fn spec_frames_distinct(frames: Seq<FrameIndex>) -> bool {
    forall|i: int, j: int| 0 <= i < j < frames.len() ==> frames[i] < frames[j]
}

/// Two sample stores with strictly increasing frames and the same
/// collection of (frame, value) pairs are identical. Insertion keeps the
/// frames sorted, so inserting keyframes in any order leaves the same
/// store — and therefore the same evaluation result.
pub proof fn lemma_insertion_order_irrelevant<T>(
    f1: Seq<FrameIndex>,
    v1: Seq<T>,
    f2: Seq<FrameIndex>,
    v2: Seq<T>,
)
    requires
        f1.len() == v1.len(),
        f2.len() == v2.len(),
        spec_frames_distinct(f1),
        spec_frames_distinct(f2),
        spec_pairs(f1, v1).to_multiset() == spec_pairs(f2, v2).to_multiset(),
    ensures
        f1 == f2,
        v1 == v2,
    decreases f1.len(),
{
    let p1 = spec_pairs(f1, v1);
    let p2 = spec_pairs(f2, v2);
    p1.to_multiset_ensures();
    p2.to_multiset_ensures();
    assert(p1.len() == p2.len());
    if f1.len() == 0 {
        assert(f1 =~= f2);
        assert(v1 =~= v2);
    } else {
        assert(p2.contains(p2[0]));
        assert(p1.to_multiset().count(p2[0]) > 0);
        assert(p1.contains(p2[0]));
        let i = choose|k: int| 0 <= k < p1.len() && p1[k] == p2[0];
        assert(f1[i] == f2[0]);
        assert(p1.contains(p1[0]));
        assert(p2.to_multiset().count(p1[0]) > 0);
        assert(p2.contains(p1[0]));
        let j = choose|k: int| 0 <= k < p2.len() && p2[k] == p1[0];
        assert(f2[j] == f1[0]);
        assert(f1[0] <= f1[i]);
        assert(f2[0] <= f2[j]);
        assert(f1[0] == f2[0]);
        if i != 0 {
            assert(f1[0] < f1[i]);
            assert(false);
        }
        assert(p1[0] == p2[0]);

        let f1r = f1.subrange(1, f1.len() as int);
        let v1r = v1.subrange(1, v1.len() as int);
        let f2r = f2.subrange(1, f2.len() as int);
        let v2r = v2.subrange(1, v2.len() as int);
        assert(spec_pairs(f1r, v1r) =~= p1.remove(0));
        assert(spec_pairs(f2r, v2r) =~= p2.remove(0));
        assert(p1.remove(0).to_multiset() =~= p1.to_multiset().remove(p1[0]));
        assert(p2.remove(0).to_multiset() =~= p2.to_multiset().remove(p2[0]));
        assert(spec_pairs(f1r, v1r).to_multiset() == spec_pairs(f2r, v2r).to_multiset());
        lemma_insertion_order_irrelevant(f1r, v1r, f2r, v2r);
        assert(v1[0] == v2[0]) by {
            assert(p1[0].1 == v1[0]);
            assert(p2[0].1 == v2[0]);
        }
        assert forall|k: int| 0 <= k < f1.len() implies #[trigger] f1[k] == f2[k] by {
            if k > 0 {
                assert(f1r[k - 1] == f1[k]);
                assert(f2r[k - 1] == f2[k]);
            }
        }
        assert forall|k: int| 0 <= k < v1.len() implies #[trigger] v1[k] == v2[k] by {
            if k > 0 {
                assert(v1r[k - 1] == v1[k]);
                assert(v2r[k - 1] == v2[k]);
            }
        }
        assert(f1 =~= f2);
        assert(v1 =~= v2);
    }
}

/// Evaluating a keyframe-value curve depends only on which keyframes were
/// inserted, never on the order they were inserted in: two curves holding
/// the same set of (frame, value) samples at distinct frames evaluate
/// identically at every query time.
pub proof fn lemma_frame_values_order_independent<T: FrameDataValue>(
    c1: FrameCurve<T>,
    c2: FrameCurve<T>,
    target_frame: int,
)
    requires
        c1.curve == EFrameCurveType::FrameValues,
        c2.curve == EFrameCurveType::FrameValues,
        c1.wf(),
        c2.wf(),
        spec_frames_distinct(c1.frames@),
        spec_frames_distinct(c2.frames@),
        c1.easing_mode == c2.easing_mode,
        spec_pairs(c1.frames@, c1.values@).to_multiset() == spec_pairs(
            c2.frames@,
            c2.values@,
        ).to_multiset(),
    ensures
        crate::curve::curves::spec_interplate_frame_values(c1, target_frame)
            == crate::curve::curves::spec_interplate_frame_values(c2, target_frame),
{
    lemma_insertion_order_irrelevant(c1.frames@, c1.values@, c2.frames@, c2.values@);
}

} // verus!
