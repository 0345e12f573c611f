//! Spheres.
use crate::hittable::HitRecord;
use crate::material::Material;
use crate::scalar::{spec_le, spec_lt, spec_within, Scalar};
use crate::vector::{spec_reversed, Point, Vector3};
use vstd::prelude::*;

verus! {

/// The sphere round `center`.
#[derive(Clone, Copy, Debug, PartialEq, Eq, Structural)]
pub struct Sphere {
    pub center: Point,
    pub radius: Scalar,
    pub material: Material,
}

/// The crossing of a ray with a sphere that counts. The ray meets the sphere
/// where a quadratic in its parameter vanishes. Under a negative discriminant
/// it has no root and the ray misses. Otherwise the nearer root counts if it
/// lies in the range from `t_min` to `t_max`, else the farther root if that one
/// does, else nothing.
pub open spec fn spec_select_root(
    discriminant: Scalar,
    near: Scalar,
    far: Scalar,
    t_min: Scalar,
    t_max: Scalar,
) -> Option<Scalar> {
    if spec_lt(discriminant, Scalar { bits: 0 }) {
        None
    } else if spec_within(near, t_min, t_max) {
        Some(near)
    } else if spec_within(far, t_min, t_max) {
        Some(far)
    } else {
        None
    }
}

impl Sphere {
    /// The sphere of the given radius round `center`.
    pub fn new(center: Point, radius: Scalar, material: Material) -> (s: Sphere)
        ensures
            s == (Sphere { center, radius, material }),
    {
        Sphere { center, radius, material }
    }

    /// The parameter at which the ray meets the sphere, if it does within the
    /// range. `discriminant` is that of the quadratic, `near` and `far` are its
    /// smaller and larger root; the roots are read only where the discriminant
    /// is not negative.
    pub fn select_root(
        discriminant: Scalar,
        near: Scalar,
        far: Scalar,
        t_min: Scalar,
        t_max: Scalar,
    ) -> (root: Option<Scalar>)
        ensures
            root == spec_select_root(discriminant, near, far, t_min, t_max),
    {
        if discriminant.lt(&Scalar::zero()) {
            return None;
        }
        let mut root = near;
        if !root.within(&t_min, &t_max) {
            root = far;
            if !root.within(&t_min, &t_max) {
                return None;
            }
        }
        Some(root)
    }

    /// The record of the meeting at parameter `root`. `p` is the point of the
    /// ray there, `outward_normal` the direction from the center to `p` scaled
    /// to length one, `u` and `v` the coordinates of `p` on the sphere, and
    /// `facing` the dot product of the direction of the ray with
    /// `outward_normal`. The normal of the record opposes the ray.
    pub fn hit(
        &self,
        root: Scalar,
        p: Point,
        outward_normal: Vector3,
        u: Scalar,
        v: Scalar,
        facing: Scalar,
    ) -> (h: HitRecord)
        ensures
            h == (HitRecord {
                t: root,
                p,
                u,
                v,
                normal: if spec_lt(facing, Scalar { bits: 0 }) {
                    outward_normal
                } else {
                    spec_reversed(outward_normal)
                },
                front_face: spec_lt(facing, Scalar { bits: 0 }),
                material: self.material,
            }),
    {
        let mut hit_record = HitRecord {
            t: root,
            p,
            u,
            v,
            normal: outward_normal,
            front_face: true,
            material: self.material,
        };
        hit_record.set_face_normal(facing);
        hit_record
    }
}

/// A root that is selected lies within the range and is one of the two roots;
/// the farther one is taken only where the nearer one lies outside the range.
pub proof fn selected_root_is_nearest_in_range(
    discriminant: Scalar,
    near: Scalar,
    far: Scalar,
    t_min: Scalar,
    t_max: Scalar,
)
    ensures
        spec_select_root(discriminant, near, far, t_min, t_max) matches Some(t) ==> {
            &&& spec_within(t, t_min, t_max)
            &&& t == near || t == far
            &&& t != near ==> !spec_within(near, t_min, t_max)
        },
        spec_select_root(discriminant, near, far, t_min, t_max) is None <==> spec_lt(
            discriminant,
            Scalar { bits: 0 },
        ) || (
        !spec_within(near, t_min, t_max) && !spec_within(far, t_min, t_max)),
{
}

/// Asked for crossings up to a nearer bound, a sphere reports the crossing it
/// reports over the whole range if that is no farther than the bound, and else
/// nothing.
pub proof fn selected_root_up_to(
    discriminant: Scalar,
    near: Scalar,
    far: Scalar,
    t_min: Scalar,
    t_max: Scalar,
    bound: Scalar,
)
    requires
        spec_le(near, far),
        spec_le(bound, t_max),
    ensures
        spec_select_root(discriminant, near, far, t_min, bound) == (match spec_select_root(
            discriminant,
            near,
            far,
            t_min,
            t_max,
        ) {
            Some(t) => if spec_le(t, bound) {
                Some(t)
            } else {
                None
            },
            None => None,
        }),
{
}

} // verus!
