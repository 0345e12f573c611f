//! The sample scene: a ground, small spheres strewn over it, and three large
//! spheres of glass, of matte brown and of polished metal.
//!
//! The ground is divided into cells, and each cell may get one small sphere.
//! Where it lies and what it is made of is drawn at random by the caller; what
//! becomes of a draw is decided here.
use crate::hittable::Hittable;
use crate::hittable_list::HittableList;
use crate::material::{Dielectric, Lambertian, Material, Metal};
use crate::scalar::{spec_gt, spec_lt, Scalar, ONE_BITS};
use crate::sphere::Sphere;
use crate::vector::{Color, Point, Vector3};
use vstd::prelude::*;

verus! {

/// The pattern of 0.8: a draw below it gives a matte sphere.
pub const MATTE_BELOW_BITS: u64 = 0x3FE9_9999_9999_999A;

/// The pattern of 0.95: a draw below it, and not below 0.8, gives a mirror;
/// one at or above it gives glass.
pub const METAL_BELOW_BITS: u64 = 0x3FEE_6666_6666_6666;

/// The pattern of 0.9: a sphere is left out unless its center is farther than
/// this from the place kept free for a large sphere.
pub const CLEARANCE_BITS: u64 = 0x3FEC_CCCC_CCCC_CCCD;

/// The pattern of 0.2, the radius of a small sphere.
pub const SMALL_RADIUS_BITS: u64 = 0x3FC9_9999_9999_999A;

/// The pattern of 1.5, the refractive index of the glass.
pub const GLASS_INDEX_BITS: u64 = 0x3FF8_0000_0000_0000;

/// The pattern of 1000, the radius of the ground, and of its negative.
pub const GROUND_RADIUS_BITS: u64 = 0x408F_4000_0000_0000;

pub const GROUND_DEPTH_BITS: u64 = 0xC08F_4000_0000_0000;

/// The patterns of 4 and of its negative, where two of the large spheres stand.
pub const ASIDE_BITS: u64 = 0x4010_0000_0000_0000;

pub const OPPOSITE_BITS: u64 = 0xC010_0000_0000_0000;

/// The patterns of 0.1, 0.4, 0.5, 0.6 and 0.7, the channels of the colours.
pub const TENTH_BITS: u64 = 0x3FB9_9999_9999_999A;

pub const FOUR_TENTHS_BITS: u64 = 0x3FD9_9999_9999_999A;

pub const HALF_BITS: u64 = 0x3FE0_0000_0000_0000;

pub const SIX_TENTHS_BITS: u64 = 0x3FE3_3333_3333_3333;

pub const SEVEN_TENTHS_BITS: u64 = 0x3FE6_6666_6666_6666;

/// What a small sphere is made of.
#[derive(Clone, Copy, Debug, PartialEq, Eq, Structural)]
pub enum Kind {
    Matte,
    Mirror,
    Glass,
}

/// What was drawn for one cell.
#[derive(Clone, Copy, Debug, PartialEq, Eq, Structural)]
pub struct Placement {
    /// A draw from [0, 1) that picks the material.
    pub choose_material: Scalar,
    /// The center of the sphere.
    pub center: Point,
    /// The distance of `center` from the place that is kept free.
    pub distance: Scalar,
    /// The colour of the sphere; read only where it is matte or a mirror.
    pub albedo: Color,
    /// The blur of the sphere; read only where it is a mirror.
    pub fuzz: Scalar,
}

/// Whether a sphere is kept: its center is farther than 0.9 from the place
/// that is kept free.
pub open spec fn spec_keeps_clear(distance: Scalar) -> bool {
    spec_gt(distance, Scalar { bits: CLEARANCE_BITS })
}

/// The kind that a draw picks: matte below 0.8, a mirror below 0.95, else
/// glass.
pub open spec fn spec_kind(choose_material: Scalar) -> Kind {
    if spec_lt(choose_material, Scalar { bits: MATTE_BELOW_BITS }) {
        Kind::Matte
    } else if spec_lt(choose_material, Scalar { bits: METAL_BELOW_BITS }) {
        Kind::Mirror
    } else {
        Kind::Glass
    }
}

/// The material that a placement picks: of the kind of its draw, with its
/// colour and blur as far as the kind has them, the glass of index 1.5.
pub open spec fn spec_material(placement: Placement) -> Material {
    match spec_kind(placement.choose_material) {
        Kind::Matte => Material::Lambertian(Lambertian { albedo: placement.albedo }),
        Kind::Mirror => Material::Metal(Metal { albedo: placement.albedo, fuzz: placement.fuzz }),
        Kind::Glass => Material::Dielectric(
            Dielectric { index_of_refraction: Scalar { bits: GLASS_INDEX_BITS } },
        ),
    }
}

/// A point or colour with the given patterns.
pub open spec fn spec_triple(x: u64, y: u64, z: u64) -> Vector3 {
    Vector3 { x: Scalar { bits: x }, y: Scalar { bits: y }, z: Scalar { bits: z } }
}

/// The ground: a grey matte sphere of radius 1000 whose top is at height zero.
pub open spec fn spec_ground() -> Hittable {
    Hittable::Sphere(
        Sphere {
            center: spec_triple(0, GROUND_DEPTH_BITS, 0),
            radius: Scalar { bits: GROUND_RADIUS_BITS },
            material: Material::Lambertian(
                Lambertian { albedo: spec_triple(HALF_BITS, HALF_BITS, HALF_BITS) },
            ),
        },
    )
}

/// The large sphere of glass, of radius one, standing on the ground in the middle.
pub open spec fn spec_glass_sphere() -> Hittable {
    Hittable::Sphere(
        Sphere {
            center: spec_triple(0, ONE_BITS, 0),
            radius: Scalar { bits: ONE_BITS },
            material: Material::Dielectric(
                Dielectric { index_of_refraction: Scalar { bits: GLASS_INDEX_BITS } },
            ),
        },
    )
}

/// The large matte sphere, brown, of radius one, at -4 along x.
pub open spec fn spec_matte_sphere() -> Hittable {
    Hittable::Sphere(
        Sphere {
            center: spec_triple(OPPOSITE_BITS, ONE_BITS, 0),
            radius: Scalar { bits: ONE_BITS },
            material: Material::Lambertian(
                Lambertian {
                    albedo: spec_triple(FOUR_TENTHS_BITS, SMALL_RADIUS_BITS, TENTH_BITS),
                },
            ),
        },
    )
}

/// The large mirror, without blur, of radius one, at 4 along x.
pub open spec fn spec_mirror_sphere() -> Hittable {
    Hittable::Sphere(
        Sphere {
            center: spec_triple(ASIDE_BITS, ONE_BITS, 0),
            radius: Scalar { bits: ONE_BITS },
            material: Material::Metal(
                Metal {
                    albedo: spec_triple(SEVEN_TENTHS_BITS, SIX_TENTHS_BITS, HALF_BITS),
                    fuzz: Scalar { bits: 0 },
                },
            ),
        },
    )
}

/// The surfaces of the sample scene: the ground, the small spheres that the
/// placements give, then the large spheres of glass, of matte and of metal.
pub open spec fn spec_sample_world(placements: Seq<Placement>) -> Seq<Hittable> {
    seq![spec_ground()] + spec_populate(placements) + seq![
        spec_glass_sphere(),
        spec_matte_sphere(),
        spec_mirror_sphere(),
    ]
}

/// The sphere that a placement gives: none where the center is within 0.9 of
/// the place that is kept free, else one of radius 0.2.
pub open spec fn spec_small_sphere(placement: Placement) -> Option<Sphere> {
    if spec_keeps_clear(placement.distance) {
        Some(
            Sphere {
                center: placement.center,
                radius: Scalar { bits: SMALL_RADIUS_BITS },
                material: spec_material(placement),
            },
        )
    } else {
        None
    }
}

/// The surfaces that the placements add to a scene, in their order.
pub open spec fn spec_populate(placements: Seq<Placement>) -> Seq<Hittable>
    decreases placements.len(),
{
    if placements.len() == 0 {
        Seq::<Hittable>::empty()
    } else {
        let front = spec_populate(placements.drop_last());
        match spec_small_sphere(placements.last()) {
            Some(sphere) => front.push(Hittable::Sphere(sphere)),
            None => front,
        }
    }
}

/// The cell at place `k` of the grid, as its column and row. The grid has the
/// columns 0 to 5 and the rows -1 to 2; its cells are gone through column by
/// column, and each column row by row.
pub open spec fn spec_cell(k: int) -> (int, int) {
    (k / 4, k % 4 - 1)
}

/// The cells of the grid, in the order in which they are filled.
pub fn grid_cells() -> (cells: Vec<(i32, i32)>)
    ensures
        cells@.len() == 24,
        forall|k: int|
            0 <= k < 24 ==> (#[trigger] cells@[k].0 as int, cells@[k].1 as int) == spec_cell(k),
{
    let mut cells: Vec<(i32, i32)> = Vec::new();
    let mut a: i32 = 0;
    while a < 6
        invariant
            0 <= a <= 6,
            cells@.len() == 4 * a,
            forall|k: int|
                0 <= k < cells@.len() ==> (#[trigger] cells@[k].0 as int, cells@[k].1 as int)
                    == spec_cell(k),
        decreases 6 - a,
    {
        let mut b: i32 = -1;
        while b < 3
            invariant
                0 <= a < 6,
                -1 <= b <= 3,
                cells@.len() == 4 * a + (b + 1),
                forall|k: int|
                    0 <= k < cells@.len() ==> (#[trigger] cells@[k].0 as int, cells@[k].1 as int)
                        == spec_cell(k),
            decreases 3 - b,
        {
            cells.push((a, b));
            b += 1;
        }
        a += 1;
    }
    cells
}

/// Whether a sphere at the given distance from the place that is kept free
/// is kept.
pub fn keeps_clear(distance: Scalar) -> (r: bool)
    ensures
        r == spec_keeps_clear(distance),
{
    distance.gt(&Scalar::from_bits(CLEARANCE_BITS))
}

/// The kind that a draw from [0, 1) picks.
pub fn choose_kind(choose_material: Scalar) -> (kind: Kind)
    ensures
        kind == spec_kind(choose_material),
{
    if choose_material.lt(&Scalar::from_bits(MATTE_BELOW_BITS)) {
        Kind::Matte
    } else if choose_material.lt(&Scalar::from_bits(METAL_BELOW_BITS)) {
        Kind::Mirror
    } else {
        Kind::Glass
    }
}

/// The material that a placement picks.
pub fn choose_material(placement: &Placement) -> (m: Material)
    ensures
        m == spec_material(*placement),
{
    match choose_kind(placement.choose_material) {
        Kind::Matte => Material::Lambertian(Lambertian { albedo: placement.albedo }),
        Kind::Mirror => Material::Metal(Metal { albedo: placement.albedo, fuzz: placement.fuzz }),
        Kind::Glass => Material::Dielectric(
            Dielectric { index_of_refraction: Scalar::from_bits(GLASS_INDEX_BITS) },
        ),
    }
}

/// A point or colour with the given patterns.
fn triple(x: u64, y: u64, z: u64) -> (v: Vector3)
    ensures
        v == spec_triple(x, y, z),
{
    Vector3::new(Scalar::from_bits(x), Scalar::from_bits(y), Scalar::from_bits(z))
}

/// The world of the sample scene: the ground, the small spheres that the
/// placements give, and behind them the three large spheres.
pub fn sample_world(placements: &Vec<Placement>) -> (world: HittableList)
    ensures
        world@ == spec_sample_world(placements@),
{
    let mut world = HittableList::empty();

    let material_ground = Material::Lambertian(
        Lambertian { albedo: triple(HALF_BITS, HALF_BITS, HALF_BITS) },
    );
    world.push(
        Hittable::Sphere(
            Sphere::new(
                triple(0, GROUND_DEPTH_BITS, 0),
                Scalar::from_bits(GROUND_RADIUS_BITS),
                material_ground,
            ),
        ),
    );

    populate_random_scene(&mut world, placements);

    let material1 = Material::Dielectric(
        Dielectric { index_of_refraction: Scalar::from_bits(GLASS_INDEX_BITS) },
    );
    let material2 = Material::Lambertian(
        Lambertian { albedo: triple(FOUR_TENTHS_BITS, SMALL_RADIUS_BITS, TENTH_BITS) },
    );
    let material3 = Material::Metal(
        Metal { albedo: triple(SEVEN_TENTHS_BITS, SIX_TENTHS_BITS, HALF_BITS), fuzz: Scalar::zero() },
    );
    world.push(Hittable::Sphere(Sphere::new(triple(0, ONE_BITS, 0), Scalar::one(), material1)));
    world.push(
        Hittable::Sphere(Sphere::new(triple(OPPOSITE_BITS, ONE_BITS, 0), Scalar::one(), material2)),
    );
    world.push(
        Hittable::Sphere(Sphere::new(triple(ASIDE_BITS, ONE_BITS, 0), Scalar::one(), material3)),
    );
    proof {
        assert(world@ =~= spec_sample_world(placements@));
    }
    world
}

/// Adds to `world` the small spheres that the placements give, in their order.
pub fn populate_random_scene(world: &mut HittableList, placements: &Vec<Placement>)
    ensures
        final(world)@ == old(world)@ + spec_populate(placements@),
{
    let mut i: usize = 0;
    proof {
        assert(placements@.take(0) =~= Seq::<Placement>::empty());
        assert(world@ =~= old(world)@ + spec_populate(placements@.take(0)));
    }
    while i < placements.len()
        invariant
            i <= placements@.len(),
            world@ == old(world)@ + spec_populate(placements@.take(i as int)),
        decreases placements@.len() - i,
    {
        let placement = &placements[i];
        proof {
            assert(placements@.take(i + 1).drop_last() =~= placements@.take(i as int));
        }
        if keeps_clear(placement.distance) {
            let sphere_material = choose_material(placement);
            world.push(
                Hittable::Sphere(
                    Sphere::new(
                        placement.center,
                        Scalar::from_bits(SMALL_RADIUS_BITS),
                        sphere_material,
                    ),
                ),
            );
        }
        i += 1;
        proof {
            assert(world@ =~= old(world)@ + spec_populate(placements@.take(i as int)));
        }
    }
    proof {
        assert(placements@.take(i as int) =~= placements@);
    }
}

/// Every surface that the placements add is a sphere of radius 0.2 whose
/// center is farther than 0.9 from the place that is kept free, and no
/// placement adds more than one.
pub proof fn populated_spheres_keep_clear(placements: Seq<Placement>)
    ensures
        spec_populate(placements).len() <= placements.len(),
        forall|i: int|
            0 <= i < spec_populate(placements).len() ==> {
                &&& #[trigger] spec_populate(placements)[i] matches Hittable::Sphere(s)
                &&& s.radius.bits == SMALL_RADIUS_BITS
                &&& exists|k: int|
                    0 <= k < placements.len() && spec_small_sphere(#[trigger] placements[k])
                        == Some(s)
            },
    decreases placements.len(),
{
    if placements.len() > 0 {
        let front = placements.drop_last();
        populated_spheres_keep_clear(front);
        assert forall|i: int| 0 <= i < spec_populate(placements).len() implies {
            &&& #[trigger] spec_populate(placements)[i] matches Hittable::Sphere(s)
            &&& s.radius.bits == SMALL_RADIUS_BITS
            &&& exists|k: int|
                0 <= k < placements.len() && spec_small_sphere(#[trigger] placements[k]) == Some(
                    s,
                )
        } by {
            if i < spec_populate(front).len() {
                let s = spec_populate(front)[i]->Sphere_0;
                let k = choose|k: int|
                    0 <= k < front.len() && spec_small_sphere(#[trigger] front[k]) == Some(s);
                assert(placements[k] == front[k]);
            } else {
                assert(spec_small_sphere(placements[placements.len() - 1]) is Some);
            }
        }
    }
}

/// The large spheres close the sample scene, whatever was drawn: the last
/// three surfaces are the glass, the matte and the mirror, in this order, and
/// the first is the ground.
pub proof fn sample_world_ends_with_the_large_spheres(placements: Seq<Placement>)
    ensures
        ({
            let world = spec_sample_world(placements);
            let n = world.len() as int;
            &&& n == 4 + spec_populate(placements).len()
            &&& world[0] == spec_ground()
            &&& world[n - 3] == spec_glass_sphere()
            &&& world[n - 2] == spec_matte_sphere()
            &&& world[n - 1] == spec_mirror_sphere()
        }),
{
}

} // verus!
