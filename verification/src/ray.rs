//! Rays, and the control of the recursive estimate of the light along one.
use crate::hittable::HitRecord;
use crate::hittable_list::{nearest_wins_earliest_on_ties, spec_hit};
use crate::scalar::Scalar;
use crate::vector::{Color, Vector3};
use vstd::prelude::*;

verus! {

/// The pattern of the nearest crossing that counts, 0.001: anything closer is
/// the surface the ray has just left.
pub const NEAREST_BITS: u64 = 0x3F50_624D_D2F1_A9FC;

/// The pattern of positive infinity, the farthest crossing that counts.
pub const FARTHEST_BITS: u64 = 0x7FF0_0000_0000_0000;

/// A half-line: the points `a + t * b`. The direction `b` need not have length one.
#[derive(Clone, Copy, Debug, PartialEq, Eq, Structural)]
pub struct Ray {
    a: Vector3,
    b: Vector3,
}

/// What the estimate of the light along a ray does next.
#[derive(Clone, Copy, Debug)]
pub enum Step {
    /// The estimate is black: the path was cut off, or a surface absorbed it.
    Black,
    /// The ray left the scene: the estimate is the background along it.
    Background,
    /// Intersect the ray with the scene, over the parameters from `t_min` to `t_max`.
    Intersect { t_min: Scalar, t_max: Scalar },
    /// Ask the material of this hit how it scatters the ray.
    Scatter(HitRecord),
    /// The estimate is `attenuation` times, channel by channel, the estimate
    /// along `scattered` with `depth` bounces left.
    Recurse { scattered: Ray, attenuation: Color, depth: i32 },
}

/// The first move of the estimate with `depth` bounces left: black once none
/// is left, else an intersection with the scene from 0.001 out to infinity.
pub open spec fn spec_color(depth: int) -> Step {
    if depth <= 0 {
        Step::Black
    } else {
        Step::Intersect {
            t_min: Scalar { bits: NEAREST_BITS },
            t_max: Scalar { bits: FARTHEST_BITS },
        }
    }
}

/// The move after the intersection: the background where nothing was hit,
/// else a question to the material that was.
pub open spec fn spec_color_after_hit(hit: Option<HitRecord>) -> Step {
    match hit {
        None => Step::Background,
        Some(h) => Step::Scatter(h),
    }
}

/// The move after the material's answer: black where it absorbed the ray,
/// else the attenuated estimate along the scattered ray with one bounce less.
pub open spec fn spec_color_after_scatter(depth: int, scattered: Option<(Ray, Color)>) -> Step {
    match scattered {
        None => Step::Black,
        Some(pair) => Step::Recurse {
            scattered: pair.0,
            attenuation: pair.1,
            depth: (depth - 1) as i32,
        },
    }
}

impl Ray {
    /// The start of the ray, as a spec value.
    pub closed spec fn spec_origin(&self) -> Vector3 {
        self.a
    }

    /// The direction of the ray, as a spec value.
    pub closed spec fn spec_direction(&self) -> Vector3 {
        self.b
    }

    /// The ray from `a` along `b`.
    pub fn new(a: Vector3, b: Vector3) -> (ray: Ray)
        ensures
            ray.spec_origin() == a,
            ray.spec_direction() == b,
    {
        Ray { a, b }
    }

    /// Where the ray starts.
    pub fn origin(&self) -> (a: Vector3)
        ensures
            a == self.spec_origin(),
    {
        self.a
    }

    /// Where the ray heads.
    pub fn direction(&self) -> (b: Vector3)
        ensures
            b == self.spec_direction(),
    {
        self.b
    }

    /// The first move of the estimate with `depth` bounces left: black once none
    /// is left, else an intersection with the scene from 0.001 out to infinity.
    pub fn color(&self, depth: i32) -> (step: Step)
        ensures
            step == spec_color(depth as int),
    {
        if depth <= 0 {
            Step::Black
        } else {
            Step::Intersect {
                t_min: Scalar::from_bits(NEAREST_BITS),
                t_max: Scalar::from_bits(FARTHEST_BITS),
            }
        }
    }

    /// The move after the intersection: the background where nothing was hit,
    /// else a question to the material that was.
    pub fn color_after_hit(&self, hit: Option<HitRecord>) -> (step: Step)
        ensures
            step == spec_color_after_hit(hit),
    {
        match hit {
            None => Step::Background,
            Some(h) => Step::Scatter(h),
        }
    }

    /// The move after the material's answer: black where it absorbed the ray,
    /// else the attenuated estimate along the scattered ray with one bounce less.
    pub fn color_after_scatter(&self, depth: i32, scattered: Option<(Ray, Color)>) -> (step: Step)
        requires
            depth > 0,
        ensures
            step == spec_color_after_scatter(depth as int, scattered),
    {
        match scattered {
            None => Step::Black,
            Some((ray, attenuation)) => Step::Recurse { scattered: ray, attenuation, depth: depth - 1 },
        }
    }
}

/// In a scene without a surface, and in any scene of which the ray meets no
/// surface, a ray with a bounce left sees the background at once.
pub proof fn ray_that_meets_nothing_sees_the_background(
    depth: int,
    results: Seq<Option<HitRecord>>,
)
    requires
        depth > 0,
        forall|i: int| 0 <= i < results.len() ==> results[i] is None,
    ensures
        spec_color(depth) is Intersect,
        spec_color_after_hit(spec_hit(results)) is Background,
{
    let i = nearest_wins_earliest_on_ties(results);
}

/// A path never runs out of its depth: the estimate that follows a bounce has
/// one bounce less, none below zero, and with none left it is black without a
/// further intersection.
pub proof fn path_ends_within_its_depth(depth: int, scattered: Option<(Ray, Color)>)
    requires
        0 < depth <= i32::MAX,
    ensures
        spec_color_after_scatter(depth, scattered) matches Step::Recurse { depth: left, .. }
            ==> 0 <= left == depth - 1,
        spec_color(0) is Black,
{
}

} // verus!
