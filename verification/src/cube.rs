//! Boxes: six rectangles, each facing outward.
use crate::aabb::AABB;
use crate::hittable::{spec_flipped, FlipNormals, HitRecord, Hittable};
use crate::hittable_list::HittableList;
use crate::material::Material;
use crate::rect::{AARect, Plane};
use crate::scalar::Scalar;
use crate::vector::{spec_component, spec_reversed, spec_unit, Point, Vector3};
use vstd::prelude::*;

verus! {

/// The box between the corners `p_min` and `p_max`.
#[derive(Debug)]
pub struct Cube {
    p_min: Vector3,
    p_max: Vector3,
    sides: HittableList,
}

/// The face of the box across `plane`: the far one through `p_max`, or the
/// near one through `p_min`. It spans the box along the two axes of the plane.
pub open spec fn spec_face(
    p_min: Vector3,
    p_max: Vector3,
    material: Material,
    plane: Plane,
    far: bool,
) -> AARect {
    let (k, a, b) = plane.spec_axes();
    AARect {
        plane,
        a0: spec_component(p_min, a),
        a1: spec_component(p_max, a),
        b0: spec_component(p_min, b),
        b1: spec_component(p_max, b),
        k: spec_component(if far { p_max } else { p_min }, k),
        material,
    }
}

/// The six sides of the box, in their order: for each plane the far face, whose
/// normal points out of the box as it is, then the near face, flipped so that
/// its normal does too.
pub open spec fn spec_sides(p_min: Vector3, p_max: Vector3, material: Material) -> Seq<Hittable> {
    seq![
        Hittable::AARect(spec_face(p_min, p_max, material, Plane::XY, true)),
        Hittable::FlipNormals(
            FlipNormals::spec_new(
                Hittable::AARect(spec_face(p_min, p_max, material, Plane::XY, false)),
            ),
        ),
        Hittable::AARect(spec_face(p_min, p_max, material, Plane::ZX, true)),
        Hittable::FlipNormals(
            FlipNormals::spec_new(
                Hittable::AARect(spec_face(p_min, p_max, material, Plane::ZX, false)),
            ),
        ),
        Hittable::AARect(spec_face(p_min, p_max, material, Plane::YZ, true)),
        Hittable::FlipNormals(
            FlipNormals::spec_new(
                Hittable::AARect(spec_face(p_min, p_max, material, Plane::YZ, false)),
            ),
        ),
    ]
}

impl Cube {
    /// The corner of the box with the least coordinates.
    pub closed spec fn spec_p_min(&self) -> Vector3 {
        self.p_min
    }

    /// The corner of the box with the greatest coordinates.
    pub closed spec fn spec_p_max(&self) -> Vector3 {
        self.p_max
    }

    /// The sides of the box.
    pub closed spec fn spec_sides(&self) -> Seq<Hittable> {
        self.sides@
    }

    /// One face of a box.
    fn face(p_min: &Vector3, p_max: &Vector3, material: Material, plane: Plane, far: bool) -> (r:
        AARect)
        ensures
            r == spec_face(*p_min, *p_max, material, plane, far),
    {
        let (k_axis, a_axis, b_axis) = plane.axes();
        let k = if far {
            p_max.component(k_axis)
        } else {
            p_min.component(k_axis)
        };
        AARect::new(
            plane,
            p_min.component(a_axis),
            p_max.component(a_axis),
            p_min.component(b_axis),
            p_max.component(b_axis),
            k,
            material,
        )
    }

    /// The box between the corners `p_min` and `p_max`, made of `material`.
    pub fn new(p_min: Vector3, p_max: Vector3, material: Material) -> (c: Cube)
        ensures
            c.spec_p_min() == p_min,
            c.spec_p_max() == p_max,
            c.spec_sides() == spec_sides(p_min, p_max, material),
    {
        let mut sides = HittableList::empty();
        sides.push(Hittable::AARect(Cube::face(&p_min, &p_max, material, Plane::XY, true)));
        sides.push(
            Hittable::FlipNormals(
                FlipNormals::new(
                    Hittable::AARect(Cube::face(&p_min, &p_max, material, Plane::XY, false)),
                ),
            ),
        );
        sides.push(Hittable::AARect(Cube::face(&p_min, &p_max, material, Plane::ZX, true)));
        sides.push(
            Hittable::FlipNormals(
                FlipNormals::new(
                    Hittable::AARect(Cube::face(&p_min, &p_max, material, Plane::ZX, false)),
                ),
            ),
        );
        sides.push(Hittable::AARect(Cube::face(&p_min, &p_max, material, Plane::YZ, true)));
        sides.push(
            Hittable::FlipNormals(
                FlipNormals::new(
                    Hittable::AARect(Cube::face(&p_min, &p_max, material, Plane::YZ, false)),
                ),
            ),
        );
        proof {
            assert(sides@ =~= spec_sides(p_min, p_max, material));
        }
        Cube { p_min, p_max, sides }
    }

    /// The sides of the box, as a list of surfaces.
    pub fn sides(&self) -> (s: &HittableList)
        ensures
            s@ == self.spec_sides(),
    {
        &self.sides
    }

    /// The hit on the box: `sides_hit`, the hit on the list of its sides.
    pub fn hit(&self, sides_hit: Option<HitRecord>) -> (r: Option<HitRecord>)
        ensures
            r == sides_hit,
    {
        sides_hit
    }

    /// The box round the box: itself.
    pub fn bounding_box(&self) -> (r: Option<AABB>)
        ensures
            r == Some(AABB { min: self.spec_p_min(), max: self.spec_p_max() }),
    {
        Some(AABB { min: self.p_min, max: self.p_max })
    }
}

/// Every side of the box shows its normal to the outside. The far face across
/// a plane lies at the greatest coordinate of the box along the axis across
/// that plane, and a hit on it has the unit vector along that axis for its
/// normal. The near face lies at the least coordinate, and a hit on it, once
/// flipped, has the reverse of that unit vector.
pub proof fn sides_face_outward(
    p_min: Vector3,
    p_max: Vector3,
    material: Material,
    plane: Plane,
    t: Scalar,
    a: Scalar,
    b: Scalar,
    p: Point,
    u: Scalar,
    v: Scalar,
    t_min: Scalar,
    t_max: Scalar,
)
    ensures
        ({
            let axis = plane.spec_axes().0;
            let far = spec_face(p_min, p_max, material, plane, true);
            let near = spec_face(p_min, p_max, material, plane, false);
            &&& far.k == spec_component(p_max, axis)
            &&& near.k == spec_component(p_min, axis)
            &&& far.spec_hit(t, a, b, p, u, v, t_min, t_max) matches Some(h) ==> h.normal
                == spec_unit(axis)
            &&& near.spec_hit(t, a, b, p, u, v, t_min, t_max) matches Some(h) ==> spec_flipped(
                h,
            ).normal == spec_reversed(spec_unit(axis))
        }),
{
}

} // verus!
