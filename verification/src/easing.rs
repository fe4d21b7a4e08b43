//! Easing: named, parameterless progress-remapping functions.

pub mod approx;
pub mod function;

use vstd::prelude::*;

verus! {

/// The named easing modes: identity plus ten families, each in its
/// In / Out / InOut form.
#[derive(Clone, Copy, Debug, PartialEq, Eq, Structural)]
pub enum EEasingMode {
    Linear,
    BackIn,
    BackOut,
    BackInOut,
    CircleIn,
    CircleOut,
    CircleInOut,
    CubicIn,
    CubicOut,
    CubicInOut,
    SineIn,
    SineOut,
    SineInOut,
    QuadIn,
    QuadOut,
    QuadInOut,
    QuartIn,
    QuartOut,
    QuartInOut,
    QuintIn,
    QuintOut,
    QuintInOut,
    ExpoIn,
    ExpoOut,
    ExpoInOut,
    ElasticIn,
    ElasticOut,
    ElasticInOut,
    BounceIn,
    BounceOut,
    BounceInOut,
}

} // verus!
