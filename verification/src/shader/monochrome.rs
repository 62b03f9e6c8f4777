//! The flat shading strategy: one colour for every point.

use vstd::prelude::*;
use crate::geometry::Vector3;
use crate::raster::BarycentricWeights;
use crate::shader::texture::TextureMap;
use crate::vertex::Vertex;

verus! {

/// A new monochrome shader of the given colour.
pub fn shader(color: Vector3) -> (s: MonochromeShader)
    ensures
        s.color() == color,
{
    MonochromeShader::new(color)
}

/// Gives every point the same colour.
#[derive(Copy, Clone, Debug)]
pub struct MonochromeShader {
    color: Vector3,
}

impl MonochromeShader {
    /// The colour that the shader gives.
    pub closed spec fn color(&self) -> Vector3 {
        self.color
    }

    pub fn new(color: Vector3) -> (s: MonochromeShader)
        ensures
            s.color() == color,
    {
        MonochromeShader { color }
    }

    /// The monochrome shading of a point: the shader's colour, whatever
    /// the weights of the point.
    pub fn shade(&self, bary: &BarycentricWeights) -> (color: Vector3)
        ensures
            color == self.color(),
    {
        self.color
    }
}

impl TextureMap for MonochromeShader {
    open spec fn color_at(&self, weights: BarycentricWeights, v0: Vertex, v1: Vertex, v2: Vertex) -> Vector3 {
        self.color()
    }

    fn apply(&self, weights: &BarycentricWeights, v0: &Vertex, v1: &Vertex, v2: &Vertex) -> (color: Vector3) {
        self.color
    }
}

} // verus!
