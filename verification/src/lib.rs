//! A sphere-tracing (raymarching) renderer over signed-distance functions.
//!
//! The scene is a tree of primitives (spheres, axis-aligned boxes) and
//! boolean combinators (union, subtraction, intersection), each exposing a
//! signed distance from a query point to its nearest surface.  A pinhole
//! camera derives one ray per pixel, and the renderer marches each ray by
//! the scene's distance value until it converges on a surface or exhausts
//! its step budget; the step count becomes the pixel's grayscale intensity.
//!
//! All geometry is carried in fixed-point coordinates (millionths), so that
//! every arithmetic step has an exact, machine-checked specification.

pub mod fixed;
pub mod linalg;
pub mod objects;
pub mod render;
pub mod trig;
