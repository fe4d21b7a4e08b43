//! Keyframe animation curves over a fixed-point value algebra.
//!
//! A curve is a sequence of time-stamped samples plus an interpolation mode;
//! evaluating it at a query time yields an interpolated value. All numeric
//! work is done in signed 16.16 fixed point (see [`fixed`]), so every kernel
//! in this crate carries a proved, exact contract.

pub mod amount;
pub mod bezier;
pub mod curve;
pub mod easing;
pub mod fixed;
pub mod hermite;

