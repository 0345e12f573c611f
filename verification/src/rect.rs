//! Rectangles that lie in a plane across one axis.
use crate::aabb::AABB;
use crate::hittable::HitRecord;
use crate::hittable_list::spec_up_to;
use crate::material::Material;
use crate::scalar::{spec_le, spec_within, Scalar};
use crate::vector::{spec_component, spec_unit, Point, Vector3};
use vstd::prelude::*;

verus! {

/// The two axes along which a rectangle extends, in order.
#[derive(Clone, Copy, Debug, PartialEq, Eq, Structural)]
pub enum Plane {
    YZ,
    ZX,
    XY,
}

/// A rectangle in the plane where the axis across it has the value `k`,
/// reaching from `a0` to `a1` along the first axis of the plane and from `b0`
/// to `b1` along the second.
#[derive(Clone, Copy, Debug, PartialEq, Eq, Structural)]
pub struct AARect {
    pub plane: Plane,
    pub a0: Scalar,
    pub a1: Scalar,
    pub b0: Scalar,
    pub b1: Scalar,
    pub k: Scalar,
    pub material: Material,
}

/// The point that has `k` along the axis across the plane, `a` along the first
/// axis of the plane and `b` along its second.
pub open spec fn spec_corner(plane: Plane, a: Scalar, b: Scalar, k: Scalar) -> Point {
    match plane {
        Plane::YZ => Vector3 { x: k, y: a, z: b },
        Plane::ZX => Vector3 { x: b, y: k, z: a },
        Plane::XY => Vector3 { x: a, y: b, z: k },
    }
}

impl Plane {
    /// The axis across the plane, then its first and its second axis; x is 0,
    /// y is 1 and z is 2.
    pub open spec fn spec_axes(self) -> (int, int, int) {
        match self {
            Plane::YZ => (0, 1, 2),
            Plane::ZX => (1, 2, 0),
            Plane::XY => (2, 0, 1),
        }
    }

    /// The axis across the plane, then its first and its second axis.
    pub fn axes(&self) -> (r: (usize, usize, usize))
        ensures
            r.0 == self.spec_axes().0,
            r.1 == self.spec_axes().1,
            r.2 == self.spec_axes().2,
    {
        match self {
            Plane::YZ => (0, 1, 2),
            Plane::ZX => (1, 2, 0),
            Plane::XY => (2, 0, 1),
        }
    }
}

impl AARect {
    /// Whether the point with plane coordinates `a` and `b` lies on the
    /// rectangle, its edges included.
    pub open spec fn spec_covers(&self, a: Scalar, b: Scalar) -> bool {
        spec_within(a, self.a0, self.a1) && spec_within(b, self.b0, self.b1)
    }

    /// The meeting of a ray with the rectangle. The ray crosses the plane of
    /// the rectangle at parameter `t`, at the plane coordinates `a` and `b`.
    /// That is a hit where `t` lies in the range and the point on the
    /// rectangle; the normal is then the unit vector across the plane.
    pub open spec fn spec_hit(
        &self,
        t: Scalar,
        a: Scalar,
        b: Scalar,
        p: Point,
        u: Scalar,
        v: Scalar,
        t_min: Scalar,
        t_max: Scalar,
    ) -> Option<HitRecord> {
        if spec_within(t, t_min, t_max) && self.spec_covers(a, b) {
            Some(
                HitRecord {
                    t,
                    p,
                    u,
                    v,
                    normal: spec_unit(self.plane.spec_axes().0),
                    front_face: true,
                    material: self.material,
                },
            )
        } else {
            None
        }
    }

    /// The rectangle with the given plane, extents, offset and material.
    pub fn new(
        plane: Plane,
        a0: Scalar,
        a1: Scalar,
        b0: Scalar,
        b1: Scalar,
        k: Scalar,
        material: Material,
    ) -> (r: AARect)
        ensures
            r == (AARect { plane, a0, a1, b0, b1, k, material }),
    {
        AARect { plane, a0, a1, b0, b1, k, material }
    }

    /// The meeting of a ray with the rectangle, from what the caller worked
    /// out: the parameter `t` at which the ray crosses the plane, the plane
    /// coordinates `a` and `b` of the crossing, the point `p` of the ray there
    /// and its surface coordinates `u` and `v`.
    pub fn hit(
        &self,
        t: Scalar,
        a: Scalar,
        b: Scalar,
        p: Point,
        u: Scalar,
        v: Scalar,
        t_min: Scalar,
        t_max: Scalar,
    ) -> (r: Option<HitRecord>)
        ensures
            r == self.spec_hit(t, a, b, p, u, v, t_min, t_max),
    {
        if !t.within(&t_min, &t_max) {
            None
        } else if !a.within(&self.a0, &self.a1) || !b.within(&self.b0, &self.b1) {
            None
        } else {
            let (k_axis, _a_axis, _b_axis) = self.plane.axes();
            let normal = Vector3::unit(k_axis);
            Some(HitRecord { t, u, v, p, normal, material: self.material, front_face: true })
        }
    }

    /// The point that has `k` along the axis across `plane`, `a` along the
    /// first axis of the plane and `b` along its second.
    pub fn corner(plane: Plane, a: Scalar, b: Scalar, k: Scalar) -> (p: Point)
        ensures
            p == spec_corner(plane, a, b, k),
    {
        match plane {
            Plane::YZ => Vector3::new(k, a, b),
            Plane::ZX => Vector3::new(b, k, a),
            Plane::XY => Vector3::new(a, b, k),
        }
    }

    /// The box round the rectangle, given the offset a little below and a
    /// little above `k`: flat rectangles get a box of some thickness. The box
    /// spans the extents of the rectangle along the two axes of its plane and
    /// runs from `k_below` to `k_above` along the axis across it.
    pub fn bounding_box(&self, k_below: Scalar, k_above: Scalar) -> (r: Option<AABB>)
        ensures
            r == Some(
                AABB {
                    min: spec_corner(self.plane, self.a0, self.b0, k_below),
                    max: spec_corner(self.plane, self.a1, self.b1, k_above),
                },
            ),
    {
        let min = AARect::corner(self.plane, self.a0, self.b0, k_below);
        let max = AARect::corner(self.plane, self.a1, self.b1, k_above);
        Some(AABB { min, max })
    }
}

/// A corner has its three coordinates along the three axes of its plane.
pub proof fn corner_lies_along_the_axes(plane: Plane, a: Scalar, b: Scalar, k: Scalar)
    ensures
        spec_component(spec_corner(plane, a, b, k), plane.spec_axes().0) == k,
        spec_component(spec_corner(plane, a, b, k), plane.spec_axes().1) == a,
        spec_component(spec_corner(plane, a, b, k), plane.spec_axes().2) == b,
{
}

/// The box of a rectangle holds the rectangle, whatever its plane: every point
/// of the rectangle lies between the corners of the box along each of the
/// three axes, given that the box reaches from below `k` to above it.
pub proof fn rect_box_holds_the_rect(
    rect: AARect,
    k_below: Scalar,
    k_above: Scalar,
    a: Scalar,
    b: Scalar,
    axis: int,
)
    requires
        spec_le(k_below, rect.k),
        spec_le(rect.k, k_above),
        rect.spec_covers(a, b),
        0 <= axis < 3,
    ensures
        ({
            let min = spec_corner(rect.plane, rect.a0, rect.b0, k_below);
            let max = spec_corner(rect.plane, rect.a1, rect.b1, k_above);
            let point = spec_corner(rect.plane, a, b, rect.k);
            &&& spec_le(spec_component(min, axis), spec_component(point, axis))
            &&& spec_le(spec_component(point, axis), spec_component(max, axis))
        }),
{
}

/// The three axes of a plane are the three axes of space, each once, and
/// follow one another in the cycle x, y, z.
pub proof fn axes_are_a_cycle(plane: Plane)
    ensures
        ({
            let (k, a, b) = plane.spec_axes();
            &&& 0 <= k < 3
            &&& a == (k + 1) % 3
            &&& b == (k + 2) % 3
        }),
{
}

/// A rectangle reports only hits whose parameter lies in the range that was asked for.
pub proof fn rect_hit_in_range(
    rect: AARect,
    t: Scalar,
    a: Scalar,
    b: Scalar,
    p: Point,
    u: Scalar,
    v: Scalar,
    t_min: Scalar,
    t_max: Scalar,
)
    ensures
        rect.spec_hit(t, a, b, p, u, v, t_min, t_max) matches Some(h) ==> spec_within(
            h.t,
            t_min,
            t_max,
        ),
{
}

/// Asked for hits up to a nearer bound, a rectangle reports the hit it reports
/// over the whole range if that is no farther than the bound, and else nothing.
pub proof fn rect_hit_up_to(
    rect: AARect,
    t: Scalar,
    a: Scalar,
    b: Scalar,
    p: Point,
    u: Scalar,
    v: Scalar,
    t_min: Scalar,
    t_max: Scalar,
    bound: Scalar,
)
    requires
        spec_le(bound, t_max),
    ensures
        rect.spec_hit(t, a, b, p, u, v, t_min, bound) == spec_up_to(
            rect.spec_hit(t, a, b, p, u, v, t_min, t_max),
            bound,
        ),
{
}

} // verus!
