//! A software rasterization pipeline on exact integer arithmetic.
//!
//! Triangles are brought from world coordinates to the screen by a chain of
//! transforms, and turned into coloured pixels of a frame buffer. A depth
//! buffer resolves occlusion, and a shading strategy computes the colour of
//! every covered pixel from perspective-correct barycentric weights.
//!
//! No quantity is a floating-point number. World coordinates, matrix
//! entries, colours and texture coordinates are fixed-point numbers with
//! sixteen fractional bits; positions on the screen and depths are integers
//! in units of 1/256. Every result is therefore reproducible bit for bit,
//! and the contracts of the functions say exactly what it is.

pub mod fixed;
pub mod geometry;
pub mod color;
pub mod grid;
pub mod frame_buffer;
pub mod z_buffer;
pub mod composite;
pub mod raster;
pub mod vertex;
pub mod shader;
pub mod shade;
pub mod render;
pub mod vector;
pub mod unit;
pub mod mesh;
pub mod shape;
pub mod transform;
pub mod camera;
pub mod ppm;
