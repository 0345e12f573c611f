//! The decisions of a Monte-Carlo path tracer: which crossing of a surface
//! counts, which of several hits is seen, how a material answers a ray, how a
//! frame is laid out in memory and written down.
//!
//! Quantities are [`scalar::Scalar`]s, which this crate orders but never adds
//! or multiplies; the arithmetic of a render belongs to the caller.
pub mod aabb;
pub mod cube;
pub mod hittable;
pub mod hittable_list;
pub mod material;
pub mod ppm;
pub mod ray;
pub mod rect;
pub mod renderer;
pub mod scalar;
pub mod scene;
pub mod sphere;
pub mod util;
pub mod vector;
