//! Boxes whose faces lie along the axes.
use crate::scalar::{spec_is_number, spec_le, spec_max, spec_min};
use crate::vector::{Point, Vector3};
use vstd::prelude::*;

verus! {

/// The box between two opposite corners.
#[derive(Clone, Copy, Debug, PartialEq, Eq, Structural)]
pub struct AABB {
    pub min: Point,
    pub max: Point,
}

/// The smallest box that holds both boxes: the lesser of the two minimums and
/// the greater of the two maximums, along each axis.
pub open spec fn spec_surrounding_box(a: AABB, b: AABB) -> AABB {
    AABB {
        min: Vector3 {
            x: spec_min(a.min.x, b.min.x),
            y: spec_min(a.min.y, b.min.y),
            z: spec_min(a.min.z, b.min.z),
        },
        max: Vector3 {
            x: spec_max(a.max.x, b.max.x),
            y: spec_max(a.max.y, b.max.y),
            z: spec_max(a.max.z, b.max.z),
        },
    }
}

/// Whether box `outer` holds box `inner`.
pub open spec fn spec_holds(outer: AABB, inner: AABB) -> bool {
    &&& spec_le(outer.min.x, inner.min.x) && spec_le(inner.max.x, outer.max.x)
    &&& spec_le(outer.min.y, inner.min.y) && spec_le(inner.max.y, outer.max.y)
    &&& spec_le(outer.min.z, inner.min.z) && spec_le(inner.max.z, outer.max.z)
}

/// Whether every coordinate of the corners of the box is a number.
pub open spec fn spec_has_numbers(b: AABB) -> bool {
    &&& spec_is_number(b.min.x) && spec_is_number(b.min.y) && spec_is_number(b.min.z)
    &&& spec_is_number(b.max.x) && spec_is_number(b.max.y) && spec_is_number(b.max.z)
}

impl AABB {
    /// The box between the corners `min` and `max`.
    pub fn new(min: Point, max: Point) -> (b: AABB)
        ensures
            b == (AABB { min, max }),
    {
        AABB { min, max }
    }
}

/// The smallest box that holds both boxes.
pub fn surrounding_box(a: &AABB, b: &AABB) -> (r: AABB)
    ensures
        r == spec_surrounding_box(*a, *b),
{
    AABB {
        min: Vector3::new(a.min.x.min(&b.min.x), a.min.y.min(&b.min.y), a.min.z.min(&b.min.z)),
        max: Vector3::new(a.max.x.max(&b.max.x), a.max.y.max(&b.max.y), a.max.z.max(&b.max.z)),
    }
}

/// The surrounding box of two boxes with numbers for corners holds both of them.
pub proof fn surrounding_box_holds_both(a: AABB, b: AABB)
    requires
        spec_has_numbers(a),
        spec_has_numbers(b),
    ensures
        spec_has_numbers(spec_surrounding_box(a, b)),
        spec_holds(spec_surrounding_box(a, b), a),
        spec_holds(spec_surrounding_box(a, b), b),
{
}

/// Any box that holds both boxes holds their surrounding box: none is smaller.
pub proof fn surrounding_box_is_least(a: AABB, b: AABB, c: AABB)
    requires
        spec_holds(c, a),
        spec_holds(c, b),
    ensures
        spec_holds(c, spec_surrounding_box(a, b)),
{
}

} // verus!
