//! Fixed-point vector algebra: two-, three- and four-component vectors.

pub mod laws;
pub mod vec2;
pub mod vec3;
pub mod vec4;

pub use vec2::Vec2;
pub use vec3::Vec3;
pub use vec4::Vec4;
