use rust_ray_tracing::hittable::HitRecord;
use rust_ray_tracing::material::{Dielectric, Lambertian, Material, Metal};
use rust_ray_tracing::ray::{Ray, Step, FARTHEST_BITS, NEAREST_BITS};
use rust_ray_tracing::scalar::Scalar;
use rust_ray_tracing::vector::Vector3;

fn s(x: f64) -> Scalar {
    Scalar::from_bits(x.to_bits())
}

fn f(x: Scalar) -> f64 {
    f64::from_bits(x.to_bits())
}

fn v(x: f64, y: f64, z: f64) -> Vector3 {
    Vector3::new(s(x), s(y), s(z))
}

fn hit_at(p: Vector3, normal: Vector3, material: Material) -> HitRecord {
    HitRecord { t: s(1.0), p, u: s(0.0), v: s(0.0), normal, front_face: true, material }
}

fn grey() -> Lambertian {
    Lambertian { albedo: v(0.5, 0.25, 0.125) }
}

#[test]
fn ray_keeps_origin_and_direction() {
    let ray = Ray::new(v(1.0, 2.0, 3.0), v(0.0, -1.0, 0.5));
    assert_eq!(ray.origin(), v(1.0, 2.0, 3.0));
    assert_eq!(ray.direction(), v(0.0, -1.0, 0.5));
}

#[test]
fn lambertian_scatters_along_the_given_direction() {
    let m = grey();
    let hit = hit_at(v(1.0, 2.0, 3.0), v(0.0, 1.0, 0.0), Material::Lambertian(m));
    let (ray, attenuation) = m.scatter(&hit, v(0.25, 1.5, -0.25)).unwrap();
    assert_eq!(ray.origin(), v(1.0, 2.0, 3.0));
    assert_eq!(ray.direction(), v(0.25, 1.5, -0.25));
    assert_eq!(attenuation, v(0.5, 0.25, 0.125));
}

#[test]
fn lambertian_takes_the_normal_for_a_vanished_direction() {
    let m = grey();
    let hit = hit_at(v(1.0, 2.0, 3.0), v(0.0, 1.0, 0.0), Material::Lambertian(m));
    for tiny in [v(0.0, 0.0, 0.0), v(9e-9, -9e-9, 9e-9), v(-0.0, 1e-300, -5e-9)] {
        let (ray, attenuation) = m.scatter(&hit, tiny).unwrap();
        assert_eq!(ray.direction(), v(0.0, 1.0, 0.0));
        assert_eq!(ray.origin(), v(1.0, 2.0, 3.0));
        assert_eq!(attenuation, v(0.5, 0.25, 0.125));
    }
    let (ray, _) = m.scatter(&hit, v(1e-8, 0.0, 0.0)).unwrap();
    assert_eq!(ray.direction(), v(1e-8, 0.0, 0.0));
}

#[test]
fn lambertian_never_absorbs() {
    let m = grey();
    let hit = hit_at(v(0.0, 0.0, 0.0), v(0.0, 0.0, 1.0), Material::Lambertian(m));
    for d in [v(0.0, 0.0, 0.0), v(1.0, 1.0, 1.0), v(-1.0, -2.0, -3.0), v(f64::INFINITY, 0.0, 0.0)] {
        assert!(m.scatter(&hit, d).is_some());
    }
}

#[test]
fn metal_fuzz_is_held_to_one() {
    let albedo = v(0.7, 0.6, 0.5);
    assert_eq!(f(Metal { albedo, fuzz: s(0.0) }.fuzz()), 0.0);
    assert_eq!(f(Metal { albedo, fuzz: s(0.3) }.fuzz()), 0.3);
    assert_eq!(f(Metal { albedo, fuzz: s(1.0) }.fuzz()), 1.0);
    assert_eq!(f(Metal { albedo, fuzz: s(1.5) }.fuzz()), 1.0);
    assert_eq!(f(Metal { albedo, fuzz: s(1e9) }.fuzz()), 1.0);
}

#[test]
fn metal_scatters_only_away_from_the_surface() {
    let m = Metal { albedo: v(0.7, 0.6, 0.5), fuzz: s(0.0) };
    let hit = hit_at(v(1.0, 2.0, 3.0), v(0.0, 1.0, 0.0), Material::Metal(m));
    let d = v(0.5, 0.5, 0.0);
    let (ray, attenuation) = m.scatter(&hit, d, s(0.5)).unwrap();
    assert_eq!(ray.origin(), v(1.0, 2.0, 3.0));
    assert_eq!(ray.direction(), d);
    assert_eq!(attenuation, v(0.7, 0.6, 0.5));
    assert!(m.scatter(&hit, d, s(5e-324)).is_some());
    assert_eq!(m.scatter(&hit, d, s(0.0)), None);
    assert_eq!(m.scatter(&hit, d, s(-0.0)), None);
    assert_eq!(m.scatter(&hit, d, s(-0.5)), None);
    assert!(m.scatter(&hit, d, s(f64::INFINITY)).is_some());
}

#[test]
fn metal_absorbs_where_the_facing_is_no_number() {
    let m = Metal { albedo: v(0.7, 0.6, 0.5), fuzz: s(0.0) };
    let hit = hit_at(v(1.0, 2.0, 3.0), v(0.0, 1.0, 0.0), Material::Metal(m));
    let d = v(0.5, 0.5, 0.0);
    for bits in [0x7FF8_0000_0000_0000u64, 0xFFF8_0000_0000_0000, 0x7FF0_0000_0000_0001, u64::MAX] {
        assert_eq!(m.scatter(&hit, d, Scalar::from_bits(bits)), None);
    }
}

#[test]
fn metal_fuzz_that_is_no_number_counts_as_one() {
    let albedo = v(0.7, 0.6, 0.5);
    assert_eq!(f(Metal { albedo, fuzz: s(f64::NAN) }.fuzz()), 1.0);
    assert_eq!(f(Metal { albedo, fuzz: s(-f64::NAN) }.fuzz()), 1.0);
}

#[test]
fn dielectric_refracts_where_nothing_is_a_number() {
    for nan in [f64::NAN, -f64::NAN] {
        assert!(!Dielectric::reflects(s(nan), s(0.04), s(0.5)));
        assert!(!Dielectric::reflects(s(0.5), s(nan), s(0.5)));
        assert!(!Dielectric::reflects(s(0.5), s(0.04), s(nan)));
        assert!(Dielectric::reflects(s(nan), s(0.04), s(0.03)));
        assert!(Dielectric::reflects(s(1.5), s(nan), s(nan)));
        assert_eq!(f(Dielectric::cos_theta(s(nan))), 1.0);
    }
}

#[test]
fn dielectric_ratio_depends_on_the_face() {
    let glass = Dielectric { index_of_refraction: s(1.5) };
    assert_eq!(f(glass.refraction_ratio(true, s(1.0 / 1.5))), 1.0 / 1.5);
    assert_eq!(f(glass.refraction_ratio(false, s(1.0 / 1.5))), 1.5);
}

#[test]
fn dielectric_cosine_is_held_to_one() {
    assert_eq!(f(Dielectric::cos_theta(s(0.5))), 0.5);
    assert_eq!(f(Dielectric::cos_theta(s(1.0))), 1.0);
    assert_eq!(f(Dielectric::cos_theta(s(1.0000000000000002))), 1.0);
    assert_eq!(f(Dielectric::cos_theta(s(-0.25))), -0.25);
}

#[test]
fn dielectric_reflects_under_total_reflection() {
    assert!(Dielectric::reflects(s(1.2), s(0.0), s(0.99)));
    assert!(Dielectric::reflects(s(1.0000000000000002), s(0.0), s(0.5)));
    assert!(!Dielectric::reflects(s(1.0), s(0.0), s(0.5)));
}

#[test]
fn dielectric_reflects_when_the_draw_is_under_the_reflectance() {
    assert!(Dielectric::reflects(s(0.5), s(0.04), s(0.03)));
    assert!(!Dielectric::reflects(s(0.5), s(0.04), s(0.04)));
    assert!(!Dielectric::reflects(s(0.5), s(0.04), s(0.5)));
}

#[test]
fn dielectric_reflects_four_times_in_a_hundred_head_on() {
    let ior: f64 = 1.5;
    let ratio = 1.0 / ior;
    let r0 = ((1.0 - ratio) / (1.0 + ratio)).powi(2);
    let cos_theta = f(Dielectric::cos_theta(s(1.0)));
    let reflectance = r0 + (1.0 - r0) * (1.0 - cos_theta).powi(5);
    assert!((reflectance - 0.04).abs() < 1e-12);
    let draws = 10_000;
    let mut reflected = 0;
    for i in 0..draws {
        let draw = (i as f64 + 0.5) / draws as f64;
        if Dielectric::reflects(s(0.0), s(reflectance), s(draw)) {
            reflected += 1;
        }
    }
    assert_eq!(reflected, 400);
}

#[test]
fn dielectric_takes_nothing_away() {
    let glass = Dielectric { index_of_refraction: s(1.5) };
    let hit = hit_at(v(1.0, 2.0, 3.0), v(0.0, 1.0, 0.0), Material::Dielectric(glass));
    let (ray, attenuation) = glass.scatter(&hit, v(0.0, -1.0, 0.0)).unwrap();
    assert_eq!(ray.origin(), v(1.0, 2.0, 3.0));
    assert_eq!(ray.direction(), v(0.0, -1.0, 0.0));
    assert_eq!(attenuation, v(1.0, 1.0, 1.0));
}

#[test]
fn range_of_a_path_runs_from_a_thousandth_to_infinity() {
    assert_eq!(NEAREST_BITS, 0.001f64.to_bits());
    assert_eq!(FARTHEST_BITS, f64::INFINITY.to_bits());
}

#[test]
fn path_without_depth_is_black() {
    let ray = Ray::new(v(0.0, 0.0, 0.0), v(0.0, 0.0, 1.0));
    assert!(matches!(ray.color(0), Step::Black));
    assert!(matches!(ray.color(-3), Step::Black));
}

#[test]
fn path_with_depth_asks_for_an_intersection() {
    let ray = Ray::new(v(0.0, 0.0, 0.0), v(0.0, 0.0, 1.0));
    for depth in [1, 25, i32::MAX] {
        match ray.color(depth) {
            Step::Intersect { t_min, t_max } => {
                assert_eq!(f(t_min), 0.001);
                assert_eq!(f(t_max), f64::INFINITY);
            }
            _ => panic!("a path with depth left intersects the scene"),
        }
    }
}

#[test]
fn ray_that_hits_nothing_sees_the_background() {
    let ray = Ray::new(v(0.0, 0.0, 0.0), v(0.0, 0.0, 1.0));
    assert!(matches!(ray.color_after_hit(None), Step::Background));
}

#[test]
fn ray_that_hits_asks_the_material() {
    let ray = Ray::new(v(0.0, 0.0, 0.0), v(0.0, 0.0, 1.0));
    let hit = hit_at(v(0.0, 0.0, 1.0), v(0.0, 0.0, -1.0), Material::Lambertian(grey()));
    match ray.color_after_hit(Some(hit)) {
        Step::Scatter(h) => assert_eq!(h, hit),
        _ => panic!("a hit is handed to its material"),
    }
}

#[test]
fn absorbed_ray_is_black() {
    let ray = Ray::new(v(0.0, 0.0, 0.0), v(0.0, 0.0, 1.0));
    assert!(matches!(ray.color_after_scatter(5, None), Step::Black));
}

#[test]
fn scattered_ray_goes_on_with_one_bounce_less() {
    let ray = Ray::new(v(0.0, 0.0, 0.0), v(0.0, 0.0, 1.0));
    let next = Ray::new(v(0.0, 0.0, 1.0), v(0.0, 1.0, 0.0));
    match ray.color_after_scatter(5, Some((next, v(0.5, 0.25, 0.125)))) {
        Step::Recurse { scattered, attenuation, depth } => {
            assert_eq!(scattered, next);
            assert_eq!(attenuation, v(0.5, 0.25, 0.125));
            assert_eq!(depth, 4);
        }
        _ => panic!("a scattered ray is followed"),
    }
    match ray.color_after_scatter(1, Some((next, v(1.0, 1.0, 1.0)))) {
        Step::Recurse { depth, .. } => {
            assert_eq!(depth, 0);
            assert!(matches!(next.color(depth), Step::Black));
        }
        _ => panic!("a scattered ray is followed"),
    }
}
