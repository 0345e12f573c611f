[package]
name = "rust_ray_tracing"
version = "0.1.0"
edition = "2021"
publish = false

[dependencies]
log = "0.4"
log4rs = "1"
nalgebra = "0.32"
rand = "0.8"
rayon = "1"
wasm-bindgen = "0.2"
