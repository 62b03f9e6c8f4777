//! Shading strategies: how a covered pixel gets its colour.

pub mod texture;
pub mod monochrome;
pub mod gouraud;
pub mod checkerboard;
