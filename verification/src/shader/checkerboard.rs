//! The checkerboard shading strategy: alternating white and black tiles in
//! texture space.

use vstd::prelude::*;
use crate::fixed::{floor_div, ONE};
use crate::geometry::{Point3, Vector2, Vector3};
use crate::shade::{checkerboard_spec, checkerboard_with, correctable};
use crate::raster::BarycentricWeights;
use crate::shader::texture::{interpolate, interpolated, TextureMap};
use crate::vertex::Vertex;

verus! {

/// A new checkerboard shader with `n_squares` tiles along each unit of a
/// texture coordinate.
pub fn shader(n_squares: usize) -> (s: CheckerboardShader)
    ensures
        s.tiles() == n_squares,
{
    CheckerboardShader::new(n_squares)
}

/// Gives a point white or black by the tile that its texture coordinate
/// falls in.
#[derive(Copy, Clone, Debug)]
pub struct CheckerboardShader {
    n_squares: usize,
}

/// The number of whole tiles below the texture coordinate `s`, where `m`
/// tiles make up one unit.
pub open spec fn tile_index(s: int, m: int) -> int {
    (s * m) / (ONE as int)
}

/// White.
pub open spec fn white() -> Vector3 {
    Vector3 { x: ONE, y: ONE, z: ONE }
}

/// Black.
pub open spec fn black() -> Vector3 {
    Vector3 { x: 0, y: 0, z: 0 }
}

/// The colour of the texture coordinate `(s, t)` on a board with `m` tiles
/// per unit: white where exactly one of the two tile indices is odd, black
/// elsewhere.
pub open spec fn checker_color(s: int, t: int, m: int) -> Vector3 {
    if (tile_index(s, m) % 2 != 0) != (tile_index(t, m) % 2 != 0) {
        white()
    } else {
        black()
    }
}

fn tile_is_odd(s: i32, m: usize) -> (odd: bool)
    ensures
        odd == (tile_index(s as int, m as int) % 2 != 0),
{
    assert(-0x8000_0000_0000_0000_0000_0000 <= (s as int) * (m as int) <= 0x8000_0000_0000_0000_0000_0000)
        by (nonlinear_arith)
        requires
            -0x8000_0000 <= s <= 0x7fff_ffff,
            0 <= m <= 0xffff_ffff_ffff_ffff,
    ;
    let scaled: i128 = (s as i128) * (m as i128);
    let index: i128 = floor_div(scaled, ONE as i128);
    index % 2 != 0
}

/// The colour of the texture coordinate `st` on a board with `n_squares`
/// tiles per unit.
pub fn checker(st: Vector2, n_squares: usize) -> (color: Vector3)
    ensures
        color == checker_color(st.x as int, st.y as int, n_squares as int),
{
    let s_odd = tile_is_odd(st.x, n_squares);
    let t_odd = tile_is_odd(st.y, n_squares);
    if s_odd != t_odd {
        Vector3 { x: ONE, y: ONE, z: ONE }
    } else {
        Vector3 { x: 0, y: 0, z: 0 }
    }
}

impl CheckerboardShader {
    /// The number of tiles per unit of a texture coordinate.
    pub closed spec fn tiles(&self) -> usize {
        self.n_squares
    }

    pub fn new(n_squares: usize) -> (s: CheckerboardShader)
        ensures
            s.tiles() == n_squares,
    {
        CheckerboardShader { n_squares }
    }

    /// The checkerboard shading, with perspective correction, of a point of
    /// a triangle with the given texture coordinates and positions of its
    /// vertices. Nothing is returned when the weights and depths do not
    /// allow the correction.
    pub fn shade(
        &self,
        st0: Vector2,
        st1: Vector2,
        st2: Vector2,
        v0: Point3,
        v1: Point3,
        v2: Point3,
        w: &BarycentricWeights,
    ) -> (r: Option<Vector3>)
        ensures
            r.is_some() <==> correctable(*w, v0, v1, v2),
            r matches Some(c) ==> c == checkerboard_spec(st0, st1, st2, v0, v1, v2, *w, self.tiles() as int),
    {
        checkerboard_with(st0, st1, st2, v0, v1, v2, w, self.n_squares)
    }
}

impl TextureMap for CheckerboardShader {
    open spec fn color_at(&self, weights: BarycentricWeights, v0: Vertex, v1: Vertex, v2: Vertex) -> Vector3 {
        checker_color(
            interpolated(weights, v0.uv.x as int, v1.uv.x as int, v2.uv.x as int),
            interpolated(weights, v0.uv.y as int, v1.uv.y as int, v2.uv.y as int),
            self.tiles() as int,
        )
    }

    fn apply(&self, weights: &BarycentricWeights, v0: &Vertex, v1: &Vertex, v2: &Vertex) -> (color: Vector3) {
        let s = interpolate(weights, v0.uv.x, v1.uv.x, v2.uv.x);
        let t = interpolate(weights, v0.uv.y, v1.uv.y, v2.uv.y);
        checker(Vector2 { x: s, y: t }, self.n_squares)
    }
}

} // verus!
