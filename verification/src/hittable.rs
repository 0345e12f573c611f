//! What a ray learns where it meets a surface, and the surfaces of a scene.
use crate::aabb::AABB;
use crate::cube::Cube;
use crate::hittable_list::HittableList;
use crate::material::Material;
use crate::rect::AARect;
use crate::scalar::{spec_is_number, spec_lt, spec_neg, Scalar};
use crate::sphere::Sphere;
use crate::vector::{spec_reversed, Point, Vector3};
use vstd::prelude::*;

verus! {

/// One meeting of a ray with a surface.
#[derive(Clone, Copy, Debug, PartialEq, Eq, Structural)]
pub struct HitRecord {
    /// The parameter of the ray at the meeting.
    pub t: Scalar,
    /// The place of the meeting.
    pub p: Point,
    /// The surface coordinates of the place.
    pub u: Scalar,
    pub v: Scalar,
    /// The normal of the surface there.
    pub normal: Vector3,
    /// Whether the ray came from outside the surface.
    pub front_face: bool,
    /// What the surface is made of.
    pub material: Material,
}

/// A surface.
#[derive(Debug)]
pub enum Hittable {
    Sphere(Sphere),
    AARect(AARect),
    Cube(Cube),
    FlipNormals(FlipNormals),
    List(HittableList),
}

/// A surface seen inside out: every normal of `hitable`, reversed.
#[derive(Debug)]
pub struct FlipNormals {
    hitable: Box<Hittable>,
}

/// The dot product of the direction of a ray with the normal of a hit, after
/// the normal was turned against the ray.
pub open spec fn spec_facing_after(facing: Scalar) -> Scalar {
    if spec_lt(facing, Scalar { bits: 0 }) {
        facing
    } else {
        spec_neg(facing)
    }
}

/// The hit with its normal reversed and nothing else changed.
pub open spec fn spec_flipped(h: HitRecord) -> HitRecord {
    HitRecord { normal: spec_reversed(h.normal), ..h }
}

impl HitRecord {
    /// Turns the normal against the ray. `facing` is the dot product of the
    /// direction of the ray with the normal as it stands, which points out of
    /// the surface. Below zero the ray came from outside and the normal stays;
    /// otherwise, also where `facing` is no number, it counts as coming from
    /// inside and the normal is reversed.
    pub fn set_face_normal(&mut self, facing: Scalar)
        ensures
            final(self).front_face == spec_lt(facing, Scalar { bits: 0 }),
            final(self).normal == if spec_lt(facing, Scalar { bits: 0 }) {
                old(self).normal
            } else {
                spec_reversed(old(self).normal)
            },
            final(self).t == old(self).t,
            final(self).p == old(self).p,
            final(self).u == old(self).u,
            final(self).v == old(self).v,
            final(self).material == old(self).material,
    {
        self.front_face = facing.lt(&Scalar::zero());
        self.normal = if self.front_face {
            self.normal
        } else {
            self.normal.reversed()
        };
    }
}

impl FlipNormals {
    /// The surface that is seen inside out.
    pub closed spec fn spec_inner(&self) -> Hittable {
        *self.hitable
    }

    /// `hitable`, seen inside out, as a spec value.
    pub closed spec fn spec_new(hitable: Hittable) -> FlipNormals {
        FlipNormals { hitable: Box::new(hitable) }
    }

    /// `hitable`, seen inside out.
    pub fn new(hitable: Hittable) -> (f: FlipNormals)
        ensures
            f == FlipNormals::spec_new(hitable),
            f.spec_inner() == hitable,
    {
        FlipNormals { hitable: Box::new(hitable) }
    }

    /// The surface that is seen inside out.
    pub fn inner(&self) -> (h: &Hittable)
        ensures
            *h == self.spec_inner(),
    {
        &*self.hitable
    }

    /// The hit on the flipped surface, from the hit `inner` on the surface
    /// itself over the same range: the same meeting, with the normal reversed.
    pub fn hit(&self, inner: Option<HitRecord>) -> (r: Option<HitRecord>)
        ensures
            inner is None ==> r is None,
            inner matches Some(h) ==> r == Some(spec_flipped(h)),
    {
        match inner {
            None => None,
            Some(h) => {
                let mut hit = h;
                hit.normal = hit.normal.reversed();
                Some(hit)
            },
        }
    }

    /// The box round the flipped surface: `inner`, the box round the surface itself.
    pub fn bounding_box(&self, inner: Option<AABB>) -> (r: Option<AABB>)
        ensures
            r == inner,
    {
        inner
    }
}

/// After `set_face_normal` the normal never points along the ray: the dot
/// product of the direction with it is zero or below.
pub proof fn normal_opposes_ray(facing: Scalar)
    requires
        spec_is_number(facing),
    ensures
        spec_is_number(spec_facing_after(facing)),
        spec_facing_after(facing)@ <= 0,
{
}

/// What was made inside out of a surface wraps that surface.
pub proof fn flip_wraps_its_surface(hitable: Hittable)
    ensures
        FlipNormals::spec_new(hitable).spec_inner() == hitable,
{
}

/// Flipping a hit twice gives the hit back.
pub proof fn flipped_twice(h: HitRecord)
    ensures
        spec_flipped(spec_flipped(h)) == h,
{
}

} // verus!
