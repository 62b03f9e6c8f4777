//! Meshes of primitive shapes.

pub mod triangle;
pub mod plane;
pub mod tetrahedron;
