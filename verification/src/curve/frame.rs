//! Keyframe data: the scalar curve value and the generic value algebra.

use vstd::prelude::*;
use crate::fixed::{FX_ONE, FX_SAT, fx_mul, fx_sat, fx_trunc_div, fx_bounded, eased_bounded,
    mul_fx, sat_i128, trunc_div_i128, lemma_fx_mul_one, lemma_fx_mul_zero};
use crate::hermite::{spec_hermite_part1, spec_hermite_part2, spec_hermite_part3,
    spec_hermite_part4};
use crate::curve::ErrorCurve;

verus! {

/// The scalar curve value: signed 16.16 fixed point (see [`crate::fixed`]).
pub type KeyFrameCurveValue = i64;

/// The two primitive operations every interpolatable value supplies:
/// scaling by a fixed-point factor and component-wise addition (plus an
/// explicit copy, so containers can hand out owned samples). The full
/// algebra of [`FrameDataValue`] is derived from these two.
pub trait FrameValueScale: Sized {
    /// What `scale` returns.
    spec fn scale_spec(&self, rhs: int) -> Self;

    /// What `vadd` returns.
    spec fn add_spec(&self, rhs: &Self) -> Self;

    /// Scales by a fixed-point factor.
    fn scale(&self, rhs: KeyFrameCurveValue) -> (r: Self)
        requires
            fx_bounded(rhs as int),
        ensures
            r == self.scale_spec(rhs as int),
    ;

    /// Adds component-wise.
    fn vadd(&self, rhs: &Self) -> (r: Self)
        ensures
            r == self.add_spec(rhs),
    ;

    /// An explicit copy.
    fn clone_value(&self) -> (r: Self)
        ensures
            r == *self,
    ;
}

/// The value-algebra contract of every interpolatable type: interpolation,
/// Hermite blending and additive append over [`FrameValueScale`].
pub trait FrameDataValue: Sized {
    /// What `interpolate` returns.
    spec fn interpolate_spec(&self, rhs: &Self, amount: int) -> Self;

    /// What `hermite` returns.
    spec fn hermite_spec(value1: &Self, tangent1: &Self, value2: &Self, tangent2: &Self,
        amount: int) -> Self;

    /// What `append` returns.
    spec fn append_spec(&self, rhs: &Self, amount: int) -> Self;

    /// Linear interpolation: `self * (1 - amount) + rhs * amount`.
    fn interpolate(&self, rhs: &Self, amount: KeyFrameCurveValue) -> (r: Self)
        requires
            eased_bounded(amount as int),
        ensures
            r == self.interpolate_spec(rhs, amount as int),
    ;

    /// Cubic Hermite blend of two endpoint values and two tangents.
    fn hermite(value1: &Self, tangent1: &Self, value2: &Self, tangent2: &Self,
        amount: KeyFrameCurveValue) -> (r: Self)
        requires
            0 <= amount <= FX_ONE,
        ensures
            r == Self::hermite_spec(value1, tangent1, value2, tangent2, amount as int),
    ;

    /// Additive offset: `self + rhs * amount`.
    fn append(&self, rhs: &Self, amount: KeyFrameCurveValue) -> (r: Self)
        requires
            eased_bounded(amount as int),
        ensures
            r == self.append_spec(rhs, amount as int),
    ;

    /// Nominal byte size of one value.
    fn size() -> usize;

    /// An explicit copy.
    fn clone_value(&self) -> (r: Self)
        ensures
            r == *self,
    ;
}

impl<T: FrameValueScale> FrameDataValue for T {
    open spec fn interpolate_spec(&self, rhs: &Self, amount: int) -> Self {
        self.scale_spec(FX_ONE as int - amount).add_spec(&rhs.scale_spec(amount))
    }

    open spec fn hermite_spec(value1: &Self, tangent1: &Self, value2: &Self, tangent2: &Self,
        amount: int) -> Self {
        let squared = fx_mul(amount, amount);
        let cubed = fx_mul(amount, squared);
        value1.scale_spec(spec_hermite_part1(squared, cubed)).add_spec(
            &value2.scale_spec(spec_hermite_part2(squared, cubed)),
        ).add_spec(&tangent1.scale_spec(spec_hermite_part3(amount, squared, cubed))).add_spec(
            &tangent2.scale_spec(spec_hermite_part4(squared, cubed)),
        )
    }

    open spec fn append_spec(&self, rhs: &Self, amount: int) -> Self {
        self.add_spec(&rhs.scale_spec(amount))
    }

    fn interpolate(&self, rhs: &Self, amount: KeyFrameCurveValue) -> (r: Self) {
        self.scale(FX_ONE - amount).vadd(&rhs.scale(amount))
    }

    fn hermite(value1: &Self, tangent1: &Self, value2: &Self, tangent2: &Self,
        amount: KeyFrameCurveValue) -> (r: Self) {
        let squared: i64 = mul_fx(amount, amount);
        let cubed: i64 = mul_fx(amount, squared);
        let part1: i64 = 2 * cubed - 3 * squared + FX_ONE;
        let part2: i64 = 3 * squared - 2 * cubed;
        let part3: i64 = cubed - 2 * squared + amount;
        let part4: i64 = cubed - squared;
        value1.scale(part1).vadd(&value2.scale(part2)).vadd(&tangent1.scale(part3)).vadd(
            &tangent2.scale(part4),
        )
    }

    fn append(&self, rhs: &Self, amount: KeyFrameCurveValue) -> (r: Self) {
        self.vadd(&rhs.scale(amount))
    }

    fn size() -> usize {
        8
    }

    fn clone_value(&self) -> (r: Self) {
        FrameValueScale::clone_value(self)
    }
}

impl FrameValueScale for KeyFrameCurveValue {
    open spec fn scale_spec(&self, rhs: int) -> KeyFrameCurveValue {
        fx_mul(*self as int, rhs) as i64
    }

    open spec fn add_spec(&self, rhs: &KeyFrameCurveValue) -> KeyFrameCurveValue {
        fx_sat(*self as int + *rhs as int) as i64
    }

    fn scale(&self, rhs: KeyFrameCurveValue) -> (r: KeyFrameCurveValue) {
        mul_fx(*self, rhs)
    }

    fn vadd(&self, rhs: &KeyFrameCurveValue) -> (r: KeyFrameCurveValue) {
        sat_i128((*self as i128) + (*rhs as i128))
    }

    fn clone_value(&self) -> (r: KeyFrameCurveValue) {
        *self
    }
}

/// Interpolation of scalars degrades exactly to the first endpoint at
/// progress 0 and to the second at progress 1.
pub proof fn lemma_interpolate_endpoints(a: KeyFrameCurveValue, b: KeyFrameCurveValue)
    requires
        -FX_SAT <= a <= FX_SAT,
        -FX_SAT <= b <= FX_SAT,
    ensures
        a.interpolate_spec(&b, 0) == a,
        a.interpolate_spec(&b, FX_ONE as int) == b,
{
    lemma_fx_mul_one(a as int);
    lemma_fx_mul_one(b as int);
    lemma_fx_mul_zero(a as int);
    lemma_fx_mul_zero(b as int);
}

/// Clamp an integer into `[0, max]`: the saturation rule of the unsigned
/// scalar instances (a narrowing numeric cast saturates the same way).
pub open spec fn sat_unsigned(v: int, max: int) -> int {
    if v < 0 {
        0
    } else if v > max {
        max
    } else {
        v
    }
}

fn scale_u64_clamped(v: u64, rhs: i64, max: u64) -> (r: u64)
    requires
        v <= max,
        fx_bounded(rhs as int),
    ensures
        r as int == sat_unsigned(fx_trunc_div((v as int) * (rhs as int), FX_ONE as int),
            max as int),
        r <= max,
{
    proof {
        assert(-0x4000_0000_0000_0000_0000_0000_0000_0000 <= (v as int) * (rhs as int)
            <= 0x4000_0000_0000_0000_0000_0000_0000_0000) by (nonlinear_arith)
            requires
                0 <= (v as int) < 0x1_0000_0000_0000_0000,
                -0x1000_0000_0000_0000 <= rhs as int <= 0x1000_0000_0000_0000,
        ;
    }
    let p: i128 = (v as i128) * (rhs as i128);
    let q: i128 = trunc_div_i128(p, FX_ONE as i128);
    if q < 0 {
        0
    } else if q > max as i128 {
        max
    } else {
        q as u64
    }
}

fn add_u64_clamped(a: u64, b: u64, max: u64) -> (r: u64)
    requires
        a <= max,
        b <= max,
    ensures
        r as int == sat_unsigned(a as int + b as int, max as int),
        r <= max,
{
    let s: u128 = (a as u128) + (b as u128);
    if s > max as u128 {
        max
    } else {
        s as u64
    }
}

impl FrameValueScale for u8 {
    open spec fn scale_spec(&self, rhs: int) -> u8 {
        sat_unsigned(fx_trunc_div((*self as int) * rhs, FX_ONE as int), u8::MAX as int) as u8
    }

    open spec fn add_spec(&self, rhs: &u8) -> u8 {
        sat_unsigned(*self as int + *rhs as int, u8::MAX as int) as u8
    }

    fn scale(&self, rhs: KeyFrameCurveValue) -> (r: u8) {
        scale_u64_clamped(*self as u64, rhs, u8::MAX as u64) as u8
    }

    fn vadd(&self, rhs: &u8) -> (r: u8) {
        add_u64_clamped(*self as u64, *rhs as u64, u8::MAX as u64) as u8
    }

    fn clone_value(&self) -> (r: u8) {
        *self
    }
}

impl FrameValueScale for u16 {
    open spec fn scale_spec(&self, rhs: int) -> u16 {
        sat_unsigned(fx_trunc_div((*self as int) * rhs, FX_ONE as int), u16::MAX as int) as u16
    }

    open spec fn add_spec(&self, rhs: &u16) -> u16 {
        sat_unsigned(*self as int + *rhs as int, u16::MAX as int) as u16
    }

    fn scale(&self, rhs: KeyFrameCurveValue) -> (r: u16) {
        scale_u64_clamped(*self as u64, rhs, u16::MAX as u64) as u16
    }

    fn vadd(&self, rhs: &u16) -> (r: u16) {
        add_u64_clamped(*self as u64, *rhs as u64, u16::MAX as u64) as u16
    }

    fn clone_value(&self) -> (r: u16) {
        *self
    }
}

impl FrameValueScale for u32 {
    open spec fn scale_spec(&self, rhs: int) -> u32 {
        sat_unsigned(fx_trunc_div((*self as int) * rhs, FX_ONE as int), u32::MAX as int) as u32
    }

    open spec fn add_spec(&self, rhs: &u32) -> u32 {
        sat_unsigned(*self as int + *rhs as int, u32::MAX as int) as u32
    }

    fn scale(&self, rhs: KeyFrameCurveValue) -> (r: u32) {
        scale_u64_clamped(*self as u64, rhs, u32::MAX as u64) as u32
    }

    fn vadd(&self, rhs: &u32) -> (r: u32) {
        add_u64_clamped(*self as u64, *rhs as u64, u32::MAX as u64) as u32
    }

    fn clone_value(&self) -> (r: u32) {
        *self
    }
}

impl FrameValueScale for u64 {
    open spec fn scale_spec(&self, rhs: int) -> u64 {
        sat_unsigned(fx_trunc_div((*self as int) * rhs, FX_ONE as int), u64::MAX as int) as u64
    }

    open spec fn add_spec(&self, rhs: &u64) -> u64 {
        sat_unsigned(*self as int + *rhs as int, u64::MAX as int) as u64
    }

    fn scale(&self, rhs: KeyFrameCurveValue) -> (r: u64) {
        scale_u64_clamped(*self, rhs, u64::MAX)
    }

    fn vadd(&self, rhs: &u64) -> (r: u64) {
        add_u64_clamped(*self, *rhs, u64::MAX)
    }

    fn clone_value(&self) -> (r: u64) {
        *self
    }
}

impl FrameValueScale for usize {
    open spec fn scale_spec(&self, rhs: int) -> usize {
        sat_unsigned(fx_trunc_div((*self as int) * rhs, FX_ONE as int), usize::MAX as int) as usize
    }

    open spec fn add_spec(&self, rhs: &usize) -> usize {
        sat_unsigned(*self as int + *rhs as int, usize::MAX as int) as usize
    }

    fn scale(&self, rhs: KeyFrameCurveValue) -> (r: usize) {
        scale_u64_clamped(*self as u64, rhs, usize::MAX as u64) as usize
    }

    fn vadd(&self, rhs: &usize) -> (r: usize) {
        add_u64_clamped(*self as u64, *rhs as u64, usize::MAX as u64) as usize
    }

    fn clone_value(&self) -> (r: usize) {
        *self
    }
}

/// A 2D vector of fixed-point components.
#[derive(Clone, Copy, Debug, PartialEq, Eq, Structural)]
pub struct Vector2 {
    pub x: KeyFrameCurveValue,
    pub y: KeyFrameCurveValue,
}

impl FrameValueScale for Vector2 {
    open spec fn scale_spec(&self, rhs: int) -> Vector2 {
        Vector2 { x: fx_mul(self.x as int, rhs) as i64, y: fx_mul(self.y as int, rhs) as i64 }
    }

    open spec fn add_spec(&self, rhs: &Vector2) -> Vector2 {
        Vector2 {
            x: fx_sat(self.x as int + rhs.x as int) as i64,
            y: fx_sat(self.y as int + rhs.y as int) as i64,
        }
    }

    fn scale(&self, rhs: KeyFrameCurveValue) -> (r: Vector2) {
        Vector2 { x: mul_fx(self.x, rhs), y: mul_fx(self.y, rhs) }
    }

    fn vadd(&self, rhs: &Vector2) -> (r: Vector2) {
        Vector2 {
            x: sat_i128((self.x as i128) + (rhs.x as i128)),
            y: sat_i128((self.y as i128) + (rhs.y as i128)),
        }
    }

    fn clone_value(&self) -> (r: Vector2) {
        *self
    }
}

/// A 3D vector of fixed-point components.
#[derive(Clone, Copy, Debug, PartialEq, Eq, Structural)]
pub struct Vector3 {
    pub x: KeyFrameCurveValue,
    pub y: KeyFrameCurveValue,
    pub z: KeyFrameCurveValue,
}

impl FrameValueScale for Vector3 {
    open spec fn scale_spec(&self, rhs: int) -> Vector3 {
        Vector3 {
            x: fx_mul(self.x as int, rhs) as i64,
            y: fx_mul(self.y as int, rhs) as i64,
            z: fx_mul(self.z as int, rhs) as i64,
        }
    }

    open spec fn add_spec(&self, rhs: &Vector3) -> Vector3 {
        Vector3 {
            x: fx_sat(self.x as int + rhs.x as int) as i64,
            y: fx_sat(self.y as int + rhs.y as int) as i64,
            z: fx_sat(self.z as int + rhs.z as int) as i64,
        }
    }

    fn scale(&self, rhs: KeyFrameCurveValue) -> (r: Vector3) {
        Vector3 { x: mul_fx(self.x, rhs), y: mul_fx(self.y, rhs), z: mul_fx(self.z, rhs) }
    }

    fn vadd(&self, rhs: &Vector3) -> (r: Vector3) {
        Vector3 {
            x: sat_i128((self.x as i128) + (rhs.x as i128)),
            y: sat_i128((self.y as i128) + (rhs.y as i128)),
            z: sat_i128((self.z as i128) + (rhs.z as i128)),
        }
    }

    fn clone_value(&self) -> (r: Vector3) {
        *self
    }
}

/// A 4D vector of fixed-point components.
#[derive(Clone, Copy, Debug, PartialEq, Eq, Structural)]
pub struct Vector4 {
    pub x: KeyFrameCurveValue,
    pub y: KeyFrameCurveValue,
    pub z: KeyFrameCurveValue,
    pub w: KeyFrameCurveValue,
}

impl FrameValueScale for Vector4 {
    open spec fn scale_spec(&self, rhs: int) -> Vector4 {
        Vector4 {
            x: fx_mul(self.x as int, rhs) as i64,
            y: fx_mul(self.y as int, rhs) as i64,
            z: fx_mul(self.z as int, rhs) as i64,
            w: fx_mul(self.w as int, rhs) as i64,
        }
    }

    open spec fn add_spec(&self, rhs: &Vector4) -> Vector4 {
        Vector4 {
            x: fx_sat(self.x as int + rhs.x as int) as i64,
            y: fx_sat(self.y as int + rhs.y as int) as i64,
            z: fx_sat(self.z as int + rhs.z as int) as i64,
            w: fx_sat(self.w as int + rhs.w as int) as i64,
        }
    }

    fn scale(&self, rhs: KeyFrameCurveValue) -> (r: Vector4) {
        Vector4 {
            x: mul_fx(self.x, rhs),
            y: mul_fx(self.y, rhs),
            z: mul_fx(self.z, rhs),
            w: mul_fx(self.w, rhs),
        }
    }

    fn vadd(&self, rhs: &Vector4) -> (r: Vector4) {
        Vector4 {
            x: sat_i128((self.x as i128) + (rhs.x as i128)),
            y: sat_i128((self.y as i128) + (rhs.y as i128)),
            z: sat_i128((self.z as i128) + (rhs.z as i128)),
            w: sat_i128((self.w as i128) + (rhs.w as i128)),
        }
    }

    fn clone_value(&self) -> (r: Vector4) {
        *self
    }
}

/// One keyframe sample: a value plus its in- and out-tangent.
pub struct CurveFrameValue<T: FrameDataValue> {
    value: T,
    intangent: T,
    outtangent: T,
}

impl<T: FrameDataValue> CurveFrameValue<T> {
    /// The stored value.
    pub closed spec fn spec_value(&self) -> T {
        self.value
    }

    /// The stored in-tangent.
    pub closed spec fn spec_intangent(&self) -> T {
        self.intangent
    }

    /// The stored out-tangent.
    pub closed spec fn spec_outtangent(&self) -> T {
        self.outtangent
    }

    /// Builds a keyframe from a value and its (in-tangent, out-tangent)
    /// pair.
    pub fn new(value: T, args: (T, T)) -> (r: Self)
        ensures
            r.spec_value() == value,
            r.spec_intangent() == args.0,
            r.spec_outtangent() == args.1,
    {
        let (intangent, outtangent) = args;
        CurveFrameValue { value, intangent, outtangent }
    }

    pub fn value(&self) -> (r: &T)
        ensures
            *r == self.spec_value(),
    {
        &self.value
    }

    pub fn intangent(&self) -> (r: &T)
        ensures
            *r == self.spec_intangent(),
    {
        &self.intangent
    }

    pub fn outtangent(&self) -> (r: &T)
        ensures
            *r == self.spec_outtangent(),
    {
        &self.outtangent
    }
}

/// The keyframe sample of a Hermite curve: a scalar with two tangents.
pub type KeyFrame = CurveFrameValue<KeyFrameCurveValue>;

/// Identifier of a registered keyframe data type.
pub type KeyFrameDataType = usize;

/// Hands out fresh keyframe data type identifiers.
pub struct KeyFrameDataTypeAllocator {
    counter: KeyFrameDataType,
}

impl KeyFrameDataTypeAllocator {
    /// How many identifiers have been handed out.
    pub closed spec fn spec_counter(&self) -> usize {
        self.counter
    }

    /// A fresh allocator.
    pub fn default() -> (r: Self)
        ensures
            r.spec_counter() == 0,
    {
        Self { counter: 0 }
    }

    /// Returns the next identifier, or an error once they are exhausted.
    pub fn allocate(&mut self) -> (r: Result<KeyFrameDataType, ErrorCurve>)
        ensures
            old(self).spec_counter() == usize::MAX ==> r == Err::<KeyFrameDataType, ErrorCurve>(
                ErrorCurve::KeyFrameDataTypeCannotAllocMore,
            ) && final(self).spec_counter() == old(self).spec_counter(),
            old(self).spec_counter() < usize::MAX ==> r == Ok::<KeyFrameDataType, ErrorCurve>(
                old(self).spec_counter(),
            ) && final(self).spec_counter() == old(self).spec_counter() + 1,
    {
        if self.counter == KeyFrameDataType::MAX {
            Err(ErrorCurve::KeyFrameDataTypeCannotAllocMore)
        } else {
            let id = self.counter;
            self.counter = self.counter + 1;
            Ok(id)
        }
    }
}

} // verus!
