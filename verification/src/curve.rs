//! Keyframe curve containers and their evaluation kernels.

pub mod curves;
pub mod frame;
pub mod frame_curve;

use vstd::prelude::*;

verus! {

/// Frame number: the time unit curves are authored in.
pub type FrameIndex = u16;

/// Design frame rate: frames per second a curve was authored against.
pub type FramePerSecond = u16;

/// Errors of the curve engine.
#[derive(Clone, Copy, Debug, PartialEq, Eq, Structural)]
pub enum ErrorCurve {
    KeyFrameDataTypeCannotAllocMore,
}

/// A value that can be built by repeating one element.
pub trait Repeat<N>: Sized {
    fn repeat(val: N) -> Self;
}

} // verus!
