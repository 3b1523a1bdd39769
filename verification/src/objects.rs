//! The scene graph: distance-reporting objects and their boolean algebra.

pub mod base;
pub mod primitives;

pub use base::Object;
pub use base::Scene;
pub use primitives::Cube;
pub use primitives::Sphere;
