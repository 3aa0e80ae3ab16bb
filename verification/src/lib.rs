//! The discrete core of a Monte-Carlo path tracer for scenes of spheres.
//!
//! Everything that is measured along a ray arrives here as plain values:
//! ray parameters as ordered integer keys, the outcome of a numeric test as
//! a `bool`. The library decides what follows from them: which root of a
//! sphere's quadratic is the hit, which primitive is nearest, what a
//! material does with the ray, when a light path ends and with what, in
//! which order the pixels of the image are produced and how they are
//! written out as text.

pub mod integrator;
pub mod material;
pub mod ppm;
pub mod raster;
pub mod scene;
pub mod sphere;
