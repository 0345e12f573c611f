//! Small decisions that samplers share.
use crate::scalar::{spec_clamp, spec_gt, spec_is_number, spec_le, spec_lt, Scalar, ONE_BITS};
use crate::vector::{spec_reversed, Vector3};
use vstd::prelude::*;

verus! {

/// Holds `x` to the interval from `min` to `max`.
pub fn clamp(x: Scalar, min: Scalar, max: Scalar) -> (r: Scalar)
    ensures
        r == spec_clamp(x, min, max),
{
    if x.lt(&min) {
        min
    } else if x.gt(&max) {
        max
    } else {
        x
    }
}

/// One try at a point inside the unit ball. `p` was drawn from the cube round
/// the ball and `magnitude_squared` is the square of its length: the point is
/// kept where that is under one. The caller draws again until one is kept.
pub fn random_vector_in_unit_sphere(p: Vector3, magnitude_squared: Scalar) -> (r: Option<Vector3>)
    ensures
        r == if spec_lt(magnitude_squared, Scalar { bits: ONE_BITS }) {
            Some(p)
        } else {
            None
        },
{
    if magnitude_squared.lt(&Scalar::one()) {
        Some(p)
    } else {
        None
    }
}

/// One try at a point inside the unit disk of the plane `z = 0`. `x` and `y`
/// were drawn from the square round the disk and `magnitude_squared` is the
/// square of the length of the point: the point is kept where that is under
/// one. The caller draws again until one is kept.
pub fn random_vector_in_unit_disk(x: Scalar, y: Scalar, magnitude_squared: Scalar) -> (r: Option<
    Vector3,
>)
    ensures
        r == if spec_lt(magnitude_squared, Scalar { bits: ONE_BITS }) {
            Some(Vector3 { x, y, z: Scalar { bits: 0 } })
        } else {
            None
        },
{
    if magnitude_squared.lt(&Scalar::one()) {
        Some(Vector3::new(x, y, Scalar::zero()))
    } else {
        None
    }
}

/// A point of the unit ball on the side of a surface to which its normal
/// points. `in_unit_sphere` is a point of the ball and `facing` its dot product
/// with the normal: above zero the point stays, otherwise it is reversed.
pub fn random_in_hemisphere(in_unit_sphere: Vector3, facing: Scalar) -> (r: Vector3)
    ensures
        r == if spec_gt(facing, Scalar { bits: 0 }) {
            in_unit_sphere
        } else {
            spec_reversed(in_unit_sphere)
        },
{
    if facing.gt(&Scalar::zero()) {
        in_unit_sphere
    } else {
        in_unit_sphere.reversed()
    }
}

/// A clamped number lies inside the interval, and one that was inside is left
/// as it was. What is no number is left as it was too.
pub proof fn clamp_stays_inside(x: Scalar, min: Scalar, max: Scalar)
    requires
        spec_le(min, max),
    ensures
        spec_is_number(x) ==> spec_le(min, spec_clamp(x, min, max)) && spec_le(
            spec_clamp(x, min, max),
            max,
        ),
        spec_le(min, x) && spec_le(x, max) ==> spec_clamp(x, min, max) == x,
        !spec_is_number(x) ==> spec_clamp(x, min, max) == x,
{
}

} // verus!
