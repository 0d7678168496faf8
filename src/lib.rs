//! Decision logic of a small stochastic ray tracer.
//!
//! The renderer's arithmetic (vectors, square roots, the camera basis) runs in
//! binary64 floating point outside this crate. What this crate decides about
//! those numbers (which root of a sphere's quadratic is taken, which surface
//! faces the ray, whether a material scatters, which primitive is nearest,
//! when the bounce budget is spent, and in what order pixels are emitted) is
//! stated and proved here over plain integer values.
pub mod scalar;
pub mod intersect;
pub mod material;
pub mod scene;
pub mod shade;
pub mod raster;
pub mod color;
pub mod rng;
