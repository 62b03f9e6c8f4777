//! The library's own small linear algebra: vectors and 4x4 matrices over
//! any scalar type.

pub mod vec2d;
pub mod vec3d;
pub mod vec4d;
pub mod matrix44;
pub mod inverse;
