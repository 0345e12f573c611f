//! How surfaces answer a ray: diffusely, as a mirror, or as glass.
use crate::hittable::HitRecord;
use crate::ray::Ray;
use crate::scalar::{spec_gt, spec_le, spec_min, Scalar, ONE_BITS};
use crate::vector::{spec_near_zero, Color, Vector3};
use vstd::prelude::*;

verus! {

/// A matte surface.
#[derive(Clone, Copy, Debug, PartialEq, Eq, Structural)]
pub struct Lambertian {
    pub albedo: Color,
}

/// A mirror, blurred by `fuzz`.
#[derive(Clone, Copy, Debug, PartialEq, Eq, Structural)]
pub struct Metal {
    pub albedo: Color,
    pub fuzz: Scalar,
}

/// Clear glass.
#[derive(Clone, Copy, Debug, PartialEq, Eq, Structural)]
pub struct Dielectric {
    pub index_of_refraction: Scalar,
}

/// The material of a surface.
#[derive(Clone, Copy, Debug, PartialEq, Eq, Structural)]
pub enum Material {
    Lambertian(Lambertian),
    Metal(Metal),
    Dielectric(Dielectric),
}

/// The colour that takes nothing away: one in every channel.
pub open spec fn spec_white() -> Color {
    Vector3 {
        x: Scalar { bits: ONE_BITS },
        y: Scalar { bits: ONE_BITS },
        z: Scalar { bits: ONE_BITS },
    }
}

impl Lambertian {
    /// The ray a matte surface sends on. `scatter_direction` is the normal of
    /// the hit plus a point drawn from the unit ball. Where that sum has
    /// vanished the normal itself stands in for it. Nothing is absorbed.
    pub fn scatter(&self, hit_record: &HitRecord, scatter_direction: Vector3) -> (r: Option<
        (Ray, Color),
    >)
        ensures
            r matches Some(pair) && pair.1 == self.albedo && pair.0.spec_origin() == hit_record.p
                && pair.0.spec_direction() == (if spec_near_zero(scatter_direction) {
                hit_record.normal
            } else {
                scatter_direction
            }),
    {
        let direction = if scatter_direction.near_zero() {
            hit_record.normal
        } else {
            scatter_direction
        };
        Some((Ray::new(hit_record.p, direction), self.albedo))
    }
}

impl Metal {
    /// The blur that is applied: `fuzz`, held to one at most.
    pub fn fuzz(&self) -> (f: Scalar)
        ensures
            f == spec_min(self.fuzz, Scalar { bits: ONE_BITS }),
            spec_le(f, Scalar { bits: ONE_BITS }),
    {
        self.fuzz.min(&Scalar::one())
    }

    /// The ray a mirror sends on. `scattered_direction` is the mirrored
    /// direction plus the blur, and `facing` its dot product with the normal of
    /// the hit. The ray goes on only where it leaves the surface, that is where
    /// `facing` is above zero; otherwise it is absorbed, and so it is where
    /// `facing` is no number.
    pub fn scatter(
        &self,
        hit_record: &HitRecord,
        scattered_direction: Vector3,
        facing: Scalar,
    ) -> (r: Option<(Ray, Color)>)
        ensures
            r is Some <==> spec_gt(facing, Scalar { bits: 0 }),
            r matches Some(pair) ==> pair.1 == self.albedo && pair.0.spec_origin() == hit_record.p
                && pair.0.spec_direction() == scattered_direction,
    {
        if facing.gt(&Scalar::zero()) {
            Some((Ray::new(hit_record.p, scattered_direction), self.albedo))
        } else {
            None
        }
    }
}

impl Dielectric {
    /// The ratio of the refractive indices across the surface: `inverse`, which
    /// is one over the index of the glass, on the way in, and the index itself
    /// on the way out.
    pub fn refraction_ratio(&self, front_face: bool, inverse: Scalar) -> (ratio: Scalar)
        ensures
            ratio == if front_face {
                inverse
            } else {
                self.index_of_refraction
            },
    {
        if front_face {
            inverse
        } else {
            self.index_of_refraction
        }
    }

    /// The cosine of the angle of incidence: the dot product of the reversed
    /// unit direction with the normal, held to one at most.
    pub fn cos_theta(dot_product: Scalar) -> (c: Scalar)
        ensures
            c == spec_min(dot_product, Scalar { bits: ONE_BITS }),
    {
        dot_product.min(&Scalar::one())
    }

    /// Whether the ray is reflected rather than refracted. It is where the
    /// glass cannot refract it, that is where `bend`, the refraction ratio times
    /// the sine of the angle of incidence, is above one; and else where the
    /// reflectance at that angle is above `draw`, a draw from [0, 1). A
    /// quantity that is no number is above nothing.
    pub fn reflects(bend: Scalar, reflectance: Scalar, draw: Scalar) -> (r: bool)
        ensures
            r == (spec_gt(bend, Scalar { bits: ONE_BITS }) || spec_gt(reflectance, draw)),
    {
        bend.gt(&Scalar::one()) || reflectance.gt(&draw)
    }

    /// The ray glass sends on, along the reflected or refracted `direction`.
    /// Glass absorbs nothing and takes nothing away.
    pub fn scatter(&self, hit_record: &HitRecord, direction: Vector3) -> (r: Option<(Ray, Color)>)
        ensures
            r matches Some(pair) && pair.1 == spec_white() && pair.0.spec_origin() == hit_record.p
                && pair.0.spec_direction() == direction,
    {
        let attenuation = Vector3::new(Scalar::one(), Scalar::one(), Scalar::one());
        Some((Ray::new(hit_record.p, direction), attenuation))
    }
}

} // verus!
