use rust_ray_tracing::scalar::{Scalar, ONE_BITS, SIGN_BIT};
use rust_ray_tracing::util::{clamp, random_in_hemisphere, random_vector_in_unit_disk, random_vector_in_unit_sphere};
use rust_ray_tracing::vector::{Vector3, NEAR_ZERO_BITS};

fn s(x: f64) -> Scalar {
    Scalar::from_bits(x.to_bits())
}

fn f(x: Scalar) -> f64 {
    f64::from_bits(x.to_bits())
}

fn v(x: f64, y: f64, z: f64) -> Vector3 {
    Vector3::new(s(x), s(y), s(z))
}

fn samples() -> Vec<f64> {
    vec![
        f64::NEG_INFINITY,
        -f64::MAX,
        -1000.0,
        -1.5,
        -1.0,
        -0.999,
        -1e-8,
        -f64::MIN_POSITIVE,
        -5e-324,
        -0.0,
        0.0,
        5e-324,
        f64::MIN_POSITIVE,
        1e-8,
        0.001,
        0.2,
        0.5,
        0.8,
        0.95,
        0.999,
        1.0,
        1.5,
        256.0,
        f64::MAX,
        f64::INFINITY,
        f64::from_bits(0x7FF8_0000_0000_0000),
        f64::from_bits(0xFFF8_0000_0000_0000),
        f64::from_bits(0x7FF0_0000_0000_0001),
        f64::from_bits(0xFFFF_FFFF_FFFF_FFFF),
    ]
}

#[test]
fn patterns_of_the_constants() {
    assert_eq!(ONE_BITS, 1.0f64.to_bits());
    assert_eq!(SIGN_BIT, (-0.0f64).to_bits());
    assert_eq!(NEAR_ZERO_BITS, 1e-8f64.to_bits());
    assert_eq!(Scalar::one().to_bits(), 1.0f64.to_bits());
    assert_eq!(Scalar::zero().to_bits(), 0.0f64.to_bits());
}

#[test]
fn bits_go_in_and_out_unchanged() {
    for x in samples() {
        assert_eq!(f(s(x)).to_bits(), x.to_bits());
    }
}

#[test]
fn order_is_the_numeric_order() {
    for a in samples() {
        for b in samples() {
            assert_eq!(s(a).lt(&s(b)), a < b, "{} < {}", a, b);
            assert_eq!(s(a).le(&s(b)), a <= b, "{} <= {}", a, b);
            assert_eq!(s(a).gt(&s(b)), a > b, "{} > {}", a, b);
            assert_eq!(s(a).same(&s(b)), a == b, "{} == {}", a, b);
        }
    }
}

#[test]
fn order_as_an_integer() {
    assert_eq!(s(0.0).order(), 0);
    assert_eq!(s(-0.0).order(), 0);
    assert_eq!(s(1.0).order(), 0x3FF0_0000_0000_0000);
    assert_eq!(s(-1.0).order(), -0x3FF0_0000_0000_0000);
    assert_eq!(s(5e-324).order(), 1);
    assert_eq!(s(-5e-324).order(), -1);
}

#[test]
fn both_zeros_are_level() {
    assert!(s(0.0).same(&s(-0.0)));
    assert!(!s(-0.0).lt(&s(0.0)));
    assert!(s(-0.0).le(&s(0.0)));
}

#[test]
fn what_is_not_a_number_compares_false_with_everything() {
    for bits in [0x7FF8_0000_0000_0000u64, 0xFFF8_0000_0000_0000, 0x7FF0_0000_0000_0001, u64::MAX] {
        let nan = Scalar::from_bits(bits);
        assert!(!nan.is_number());
        for x in samples() {
            assert!(!nan.lt(&s(x)) && !nan.le(&s(x)) && !nan.gt(&s(x)) && !nan.same(&s(x)));
            assert!(!s(x).lt(&nan) && !s(x).le(&nan) && !s(x).gt(&nan) && !s(x).same(&nan));
            assert!(!nan.within(&s(x), &s(f64::INFINITY)));
            assert!(!s(x).within(&nan, &s(f64::INFINITY)));
            assert!(!s(x).within(&s(f64::NEG_INFINITY), &nan));
        }
        assert!(!nan.same(&nan));
    }
}

#[test]
fn numbers_reach_up_to_the_infinities() {
    for x in [0.0, -0.0, 1.0, -1.0, 5e-324, f64::MAX, f64::INFINITY, f64::NEG_INFINITY] {
        assert!(s(x).is_number());
    }
    for x in samples() {
        assert_eq!(s(x).is_number(), !x.is_nan());
    }
}

#[test]
fn what_is_not_a_number_passes_through_a_clamp() {
    let nan = f64::from_bits(0xFFF8_0000_0000_0000);
    assert_eq!(clamp(s(nan), s(0.0), s(0.999)).to_bits(), nan.to_bits());
    assert_eq!(clamp(s(f64::NAN), s(0.0), s(0.999)).to_bits(), f64::NAN.to_bits());
}

#[test]
fn neg_flips_the_sign_bit() {
    for x in samples() {
        assert_eq!(s(x).neg().to_bits(), (-x).to_bits());
        assert_eq!(s(x).neg().neg().to_bits(), x.to_bits());
    }
}

#[test]
fn abs_clears_the_sign_bit() {
    for x in samples() {
        assert_eq!(s(x).abs().to_bits(), x.abs().to_bits());
    }
}

#[test]
fn min_and_max_pick_one_of_the_two() {
    for a in samples() {
        for b in samples() {
            let least = if a < b { a } else { b };
            let most = if a > b { a } else { b };
            assert_eq!(s(a).min(&s(b)).to_bits(), least.to_bits());
            assert_eq!(s(a).max(&s(b)).to_bits(), most.to_bits());
        }
    }
    assert_eq!(f(s(3.0).min(&s(1.0))), 1.0);
    assert_eq!(f(s(3.0).max(&s(1.0))), 3.0);
}

#[test]
fn within_includes_both_ends() {
    assert!(s(0.001).within(&s(0.001), &s(10.0)));
    assert!(s(10.0).within(&s(0.001), &s(10.0)));
    assert!(s(5.0).within(&s(0.001), &s(10.0)));
    assert!(!s(0.0009).within(&s(0.001), &s(10.0)));
    assert!(!s(10.5).within(&s(0.001), &s(10.0)));
    assert!(!s(-5.0).within(&s(0.001), &s(10.0)));
}

#[test]
fn clamp_below_inside_above() {
    assert_eq!(f(clamp(s(-0.5), s(0.0), s(0.999))), 0.0);
    assert_eq!(f(clamp(s(0.25), s(0.0), s(0.999))), 0.25);
    assert_eq!(f(clamp(s(1.0), s(0.0), s(0.999))), 0.999);
    assert_eq!(f(clamp(s(0.999), s(0.0), s(0.999))), 0.999);
    assert_eq!(f(clamp(s(0.0), s(0.0), s(0.999))), 0.0);
    assert_eq!(f(clamp(s(f64::INFINITY), s(-1.0), s(1.0))), 1.0);
    assert_eq!(f(clamp(s(f64::NEG_INFINITY), s(-1.0), s(1.0))), -1.0);
}

#[test]
fn clamp_agrees_with_comparisons_on_numbers() {
    for x in samples() {
        for lo in [-1.0, 0.0, 0.5] {
            for hi in [0.5, 0.999, 2.0] {
                let want = if x < lo {
                    lo
                } else if x > hi {
                    hi
                } else {
                    x
                };
                assert_eq!(clamp(s(x), s(lo), s(hi)).to_bits(), want.to_bits());
            }
        }
    }
}

#[test]
fn vector_components_by_axis() {
    let p = v(1.0, 2.0, 3.0);
    assert_eq!(f(p.component(0)), 1.0);
    assert_eq!(f(p.component(1)), 2.0);
    assert_eq!(f(p.component(2)), 3.0);
    assert_eq!(p, Vector3 { x: s(1.0), y: s(2.0), z: s(3.0) });
}

#[test]
fn vector_zeros_and_units() {
    assert_eq!(Vector3::zeros(), v(0.0, 0.0, 0.0));
    assert_eq!(Vector3::unit(0), v(1.0, 0.0, 0.0));
    assert_eq!(Vector3::unit(1), v(0.0, 1.0, 0.0));
    assert_eq!(Vector3::unit(2), v(0.0, 0.0, 1.0));
}

#[test]
fn vector_reversed_flips_every_component() {
    assert_eq!(v(1.0, -2.0, 0.5).reversed(), v(-1.0, 2.0, -0.5));
    assert_eq!(v(1.0, -2.0, 0.5).reversed().reversed(), v(1.0, -2.0, 0.5));
    assert_eq!(v(0.0, 0.0, 0.0).reversed(), v(-0.0, -0.0, -0.0));
}

#[test]
fn near_zero_needs_every_component_under_the_bound() {
    assert!(v(0.0, 0.0, 0.0).near_zero());
    assert!(v(9e-9, -9e-9, 0.0).near_zero());
    assert!(v(-9.999e-9, 9.999e-9, -1e-300).near_zero());
    assert!(!v(1e-8, 0.0, 0.0).near_zero());
    assert!(!v(0.0, -1e-8, 0.0).near_zero());
    assert!(!v(0.0, 0.0, 1.0).near_zero());
    assert!(!v(1e-9, 1e-9, 2e-8).near_zero());
}

#[test]
fn point_in_unit_sphere_is_kept_under_length_one() {
    let p = v(0.5, 0.5, 0.5);
    assert_eq!(random_vector_in_unit_sphere(p, s(0.75)), Some(p));
    let q = v(0.9, 0.9, 0.9);
    assert_eq!(random_vector_in_unit_sphere(q, s(2.43)), None);
    let edge = v(1.0, 0.0, 0.0);
    assert_eq!(random_vector_in_unit_sphere(edge, s(1.0)), None);
    assert_eq!(random_vector_in_unit_sphere(p, s(f64::NAN)), None);
    assert_eq!(random_vector_in_unit_sphere(p, s(-f64::NAN)), None);
}

#[test]
fn point_in_unit_disk_lies_in_the_plane() {
    assert_eq!(random_vector_in_unit_disk(s(0.5), s(-0.5), s(0.5)), Some(v(0.5, -0.5, 0.0)));
    assert_eq!(random_vector_in_unit_disk(s(0.9), s(0.9), s(1.62)), None);
    assert_eq!(random_vector_in_unit_disk(s(1.0), s(0.0), s(1.0)), None);
}

#[test]
fn hemisphere_turns_points_to_the_side_of_the_normal() {
    let p = v(0.1, 0.2, 0.3);
    assert_eq!(random_in_hemisphere(p, s(0.2)), p);
    assert_eq!(random_in_hemisphere(p, s(-0.2)), v(-0.1, -0.2, -0.3));
    assert_eq!(random_in_hemisphere(p, s(0.0)), v(-0.1, -0.2, -0.3));
    assert_eq!(random_in_hemisphere(p, s(f64::NAN)), v(-0.1, -0.2, -0.3));
    assert_eq!(random_in_hemisphere(p, s(-f64::NAN)), v(-0.1, -0.2, -0.3));
}
