//! Triples of scalars: points, directions and colours.
use crate::scalar::{spec_abs, spec_lt, spec_neg, Scalar, ONE_BITS};
use vstd::prelude::*;

verus! {

/// The pattern of the bound under which a component counts as vanished: 1e-8.
pub const NEAR_ZERO_BITS: u64 = 0x3E45_798E_E230_8C3A;

/// Three scalars, named as the axes of space.
#[derive(Clone, Copy, Debug, PartialEq, Eq, Structural)]
pub struct Vector3 {
    pub x: Scalar,
    pub y: Scalar,
    pub z: Scalar,
}

/// A place in space.
pub type Point = Vector3;

/// A red, green and blue intensity.
pub type Color = Vector3;

/// The vector with the sign of each component flipped.
pub open spec fn spec_reversed(v: Vector3) -> Vector3 {
    Vector3 { x: spec_neg(v.x), y: spec_neg(v.y), z: spec_neg(v.z) }
}

/// The component of `v` along axis 0, 1 or 2.
pub open spec fn spec_component(v: Vector3, axis: int) -> Scalar {
    if axis == 0 {
        v.x
    } else if axis == 1 {
        v.y
    } else {
        v.z
    }
}

/// Whether every component of `v` is smaller in magnitude than 1e-8.
pub open spec fn spec_near_zero(v: Vector3) -> bool {
    &&& spec_lt(spec_abs(v.x), Scalar { bits: NEAR_ZERO_BITS })
    &&& spec_lt(spec_abs(v.y), Scalar { bits: NEAR_ZERO_BITS })
    &&& spec_lt(spec_abs(v.z), Scalar { bits: NEAR_ZERO_BITS })
}

/// The vector of length one along axis 0, 1 or 2.
pub open spec fn spec_unit(axis: int) -> Vector3 {
    Vector3 {
        x: Scalar { bits: if axis == 0 { ONE_BITS } else { 0 } },
        y: Scalar { bits: if axis == 1 { ONE_BITS } else { 0 } },
        z: Scalar { bits: if axis == 0 || axis == 1 { 0 } else { ONE_BITS } },
    }
}

impl Vector3 {
    /// The vector with the given components.
    pub fn new(x: Scalar, y: Scalar, z: Scalar) -> (v: Vector3)
        ensures
            v == (Vector3 { x, y, z }),
    {
        Vector3 { x, y, z }
    }

    /// The vector whose components are all positive zero.
    pub fn zeros() -> (v: Vector3)
        ensures
            v.x.bits == 0,
            v.y.bits == 0,
            v.z.bits == 0,
    {
        Vector3 { x: Scalar::zero(), y: Scalar::zero(), z: Scalar::zero() }
    }

    /// The vector of length one along the given axis.
    pub fn unit(axis: usize) -> (v: Vector3)
        requires
            axis < 3,
        ensures
            v == spec_unit(axis as int),
    {
        let mut v = Vector3::zeros();
        if axis == 0 {
            v.x = Scalar::one();
        } else if axis == 1 {
            v.y = Scalar::one();
        } else {
            v.z = Scalar::one();
        }
        v
    }

    /// The component along the given axis.
    pub fn component(&self, axis: usize) -> (c: Scalar)
        requires
            axis < 3,
        ensures
            c == spec_component(*self, axis as int),
    {
        if axis == 0 {
            self.x
        } else if axis == 1 {
            self.y
        } else {
            self.z
        }
    }

    /// The vector pointing the other way.
    pub fn reversed(&self) -> (v: Vector3)
        ensures
            v == spec_reversed(*self),
    {
        Vector3 { x: self.x.neg(), y: self.y.neg(), z: self.z.neg() }
    }

    /// Whether the vector has vanished: every component under 1e-8 in magnitude.
    pub fn near_zero(&self) -> (r: bool)
        ensures
            r == spec_near_zero(*self),
    {
        let bound = Scalar::from_bits(NEAR_ZERO_BITS);
        self.x.abs().lt(&bound) && self.y.abs().lt(&bound) && self.z.abs().lt(&bound)
    }
}

/// Reversing a vector twice gives it back, bit for bit.
pub proof fn reversed_twice(v: Vector3)
    ensures
        spec_reversed(spec_reversed(v)) == v,
{
}

} // verus!
