//! The Gouraud shading strategy: the colours of the vertices, interpolated.

use vstd::prelude::*;
use crate::geometry::Vector3;
use crate::raster::BarycentricWeights;
use crate::shader::texture::{interpolate, interpolated_vector, TextureMap};
use crate::vertex::Vertex;

verus! {

/// A new Gouraud shader.
pub fn shader() -> (s: GouraudShader) {
    GouraudShader::new()
}

/// Gives a point the average of the vertex colours with the weights of the
/// point.
#[derive(Copy, Clone, Debug)]
pub struct GouraudShader {
    _private: (),
}

impl GouraudShader {
    pub fn new() -> (s: GouraudShader) {
        GouraudShader { _private: () }
    }

    /// The Gouraud shading of a point of a triangle with the given vertex
    /// colours.
    pub fn shade(&self, color0: Vector3, color1: Vector3, color2: Vector3, bary: &BarycentricWeights) -> (color:
        Vector3)
        requires
            bary.valid(),
        ensures
            color == interpolated_vector(*bary, color0, color1, color2),
    {
        gouraud(color0, color1, color2, bary)
    }
}

/// The Gouraud shading of a point: the average of the three colours with
/// the weights of the point, each component rounded down.
pub fn gouraud(color0: Vector3, color1: Vector3, color2: Vector3, bary: &BarycentricWeights) -> (color: Vector3)
    requires
        bary.valid(),
    ensures
        color == interpolated_vector(*bary, color0, color1, color2),
{
    Vector3 {
        x: interpolate(bary, color0.x, color1.x, color2.x),
        y: interpolate(bary, color0.y, color1.y, color2.y),
        z: interpolate(bary, color0.z, color1.z, color2.z),
    }
}

/// The Gouraud shading of a point whose three weights are given one by one.
pub fn gouraud_shade(color0: Vector3, color1: Vector3, color2: Vector3, alpha: i128, beta: i128, gamma: i128) -> (color:
    Vector3)
    requires
        (BarycentricWeights { w0: alpha, w1: beta, w2: gamma }).valid(),
    ensures
        color == interpolated_vector(BarycentricWeights { w0: alpha, w1: beta, w2: gamma }, color0, color1, color2),
{
    let bary = BarycentricWeights::new(alpha, beta, gamma);
    gouraud(color0, color1, color2, &bary)
}

impl TextureMap for GouraudShader {
    open spec fn color_at(&self, weights: BarycentricWeights, v0: Vertex, v1: Vertex, v2: Vertex) -> Vector3 {
        interpolated_vector(weights, v0.color, v1.color, v2.color)
    }

    fn apply(&self, weights: &BarycentricWeights, v0: &Vertex, v1: &Vertex, v2: &Vertex) -> (color: Vector3) {
        gouraud(v0.color, v1.color, v2.color, weights)
    }
}

} // verus!
