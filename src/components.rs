//! The values that an entity carries into and out of the resolvers.
use vstd::prelude::*;

use crate::binary32::{is_nan, le, nan, neg, negated, value_le, ZERO};

verus! {

/// A three-component vector, each component a binary32 encoding.
#[derive(Clone, Copy, Debug, PartialEq, Eq, Structural)]
pub struct Vec3Bits {
    pub x: u32,
    pub y: u32,
    pub z: u32,
}

impl Vec3Bits {
    /// The vector `(+0.0, +0.0, +0.0)`.
    pub fn zero() -> (r: Vec3Bits)
        ensures
            r == (Vec3Bits { x: ZERO, y: ZERO, z: ZERO }),
    {
        Vec3Bits { x: ZERO, y: ZERO, z: ZERO }
    }

    /// The componentwise negation.
    pub fn neg(&self) -> (r: Vec3Bits)
        ensures
            r == (Vec3Bits { x: negated(self.x), y: negated(self.y), z: negated(self.z) }),
    {
        Vec3Bits { x: neg(self.x), y: neg(self.y), z: neg(self.z) }
    }
}

/// Desired linear push, in the entity's local frame.
#[derive(Clone, Copy, Debug, PartialEq, Eq, Structural)]
pub struct Impulse(pub Vec3Bits);

impl Default for Impulse {
    fn default() -> (r: Impulse)
        ensures
            r.0 == (Vec3Bits { x: ZERO, y: ZERO, z: ZERO }),
    {
        Impulse(Vec3Bits::zero())
    }
}

/// Desired rotational push, about the entity's local pitch, yaw and roll axes.
#[derive(Clone, Copy, Debug, PartialEq, Eq, Structural)]
pub struct AngularImpulse(pub Vec3Bits);

impl Default for AngularImpulse {
    fn default() -> (r: AngularImpulse)
        ensures
            r.0 == (Vec3Bits { x: ZERO, y: ZERO, z: ZERO }),
    {
        AngularImpulse(Vec3Bits::zero())
    }
}

/// Encoding of `-1.0`.
pub const MINUS_ONE: u32 = 0xbf80_0000;

/// Encoding of `-5.0`.
pub const MINUS_FIVE: u32 = 0xc0a0_0000;

/// Encoding of `+2.0`.
pub const TWO: u32 = 0x4000_0000;

/// An entity's engine envelope: per axis, the most negative (`min`) and most
/// positive (`max`) linear acceleration in the body frame, and the rotational
/// acceleration `rot` that bounds both directions of each rotation axis.
#[derive(Clone, Copy, Debug, PartialEq, Eq, Structural)]
pub struct ThrustCharacteristics {
    pub min: Vec3Bits,
    pub max: Vec3Bits,
    pub rot: Vec3Bits,
}

/// Neither NaN nor above zero.
pub open spec fn non_positive(b: u32) -> bool {
    !nan(b) && value_le(b, ZERO)
}

/// Neither NaN nor below zero.
pub open spec fn non_negative(b: u32) -> bool {
    !nan(b) && value_le(ZERO, b)
}

fn is_non_positive(b: u32) -> (r: bool)
    ensures
        r == non_positive(b),
{
    !is_nan(b) && le(b, ZERO)
}

fn is_non_negative(b: u32) -> (r: bool)
    ensures
        r == non_negative(b),
{
    !is_nan(b) && le(ZERO, b)
}

impl ThrustCharacteristics {
    /// `min <= 0 <= max` on every axis, and `rot >= 0` on every axis.
    pub open spec fn valid(&self) -> bool {
        &&& non_positive(self.min.x) && non_positive(self.min.y) && non_positive(self.min.z)
        &&& non_negative(self.max.x) && non_negative(self.max.y) && non_negative(self.max.z)
        &&& non_negative(self.rot.x) && non_negative(self.rot.y) && non_negative(self.rot.z)
    }

    /// Whether the envelope is well-formed; the resolvers do not require it,
    /// but only on a well-formed envelope do their results keep to it.
    pub fn is_valid(&self) -> (r: bool)
        ensures
            r == self.valid(),
    {
        is_non_positive(self.min.x) && is_non_positive(self.min.y) && is_non_positive(self.min.z)
            && is_non_negative(self.max.x) && is_non_negative(self.max.y) && is_non_negative(
            self.max.z,
        ) && is_non_negative(self.rot.x) && is_non_negative(self.rot.y) && is_non_negative(
            self.rot.z,
        )
    }

    /// The negative-direction bound of the rotational envelope: `-rot`.
    pub fn angular_lower_bound(&self) -> (r: Vec3Bits)
        ensures
            r == (Vec3Bits { x: negated(self.rot.x), y: negated(self.rot.y), z: negated(self.rot.z) }),
    {
        self.rot.neg()
    }
}

impl Default for ThrustCharacteristics {
    /// `min = (-1, -5, -1)`, `max = (1, 2, 1)`, `rot = (1, 1, 1)`.
    fn default() -> (r: ThrustCharacteristics)
        ensures
            r.min == (Vec3Bits { x: MINUS_ONE, y: MINUS_FIVE, z: MINUS_ONE }),
            r.max == (Vec3Bits { x: crate::binary32::ONE, y: TWO, z: crate::binary32::ONE }),
            r.rot == (Vec3Bits {
                x: crate::binary32::ONE,
                y: crate::binary32::ONE,
                z: crate::binary32::ONE,
            }),
            r.valid(),
    {
        ThrustCharacteristics {
            min: Vec3Bits { x: MINUS_ONE, y: MINUS_FIVE, z: MINUS_ONE },
            max: Vec3Bits { x: crate::binary32::ONE, y: TWO, z: crate::binary32::ONE },
            rot: Vec3Bits {
                x: crate::binary32::ONE,
                y: crate::binary32::ONE,
                z: crate::binary32::ONE,
            },
        }
    }
}

} // verus!
