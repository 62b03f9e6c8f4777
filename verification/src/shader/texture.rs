//! The interface of a shading strategy, and the interpolation of vertex
//! attributes that the strategies share.

use vstd::prelude::*;
use crate::fixed::{floor_div, lemma_quotient_between, max3_spec, min3_spec, ONE};
use crate::geometry::Vector3;
use crate::grid::{filled, rows_view, shaped, with_cell};
use crate::raster::BarycentricWeights;
use crate::vertex::Vertex;

verus! {

/// A shading strategy: the colour of a point of a triangle, given the
/// weights of the point and the triangle's vertices. The rasterizer hands
/// in perspective-correct weights and does not care which strategy it
/// calls.
pub trait TextureMap {
    /// The colour of the point with the given weights.
    spec fn color_at(&self, weights: BarycentricWeights, v0: Vertex, v1: Vertex, v2: Vertex) -> Vector3;

    fn apply(&self, weights: &BarycentricWeights, v0: &Vertex, v1: &Vertex, v2: &Vertex) -> (color: Vector3)
        requires
            weights.valid(),
        ensures
            color == self.color_at(*weights, *v0, *v1, *v2),
    ;
}

/// The value at a point of an attribute that has the values `a0`, `a1` and
/// `a2` at the vertices: their average with the weights of the point,
/// rounded down.
pub open spec fn interpolated(w: BarycentricWeights, a0: int, a1: int, a2: int) -> int {
    (w.w0 * a0 + w.w1 * a1 + w.w2 * a2) / w.sum()
}

/// The products of weights and 32-bit attribute values fit in 128 bits, and
/// their sum lies between the smallest and the largest attribute value
/// times the sum of the weights.
pub proof fn lemma_weighted_sum_bounds(w: BarycentricWeights, a0: int, a1: int, a2: int)
    requires
        w.valid(),
        i32::MIN <= a0 <= i32::MAX,
        i32::MIN <= a1 <= i32::MAX,
        i32::MIN <= a2 <= i32::MAX,
    ensures
        min3_spec(a0, a1, a2) * w.sum() <= w.w0 * a0 + w.w1 * a1 + w.w2 * a2 <= max3_spec(a0, a1, a2) * w.sum(),
        -0x4000_0000_0000_0000_0000_0000_0000_0000 <= w.w0 * a0 <= 0x4000_0000_0000_0000_0000_0000_0000_0000,
        -0x4000_0000_0000_0000_0000_0000_0000_0000 <= w.w1 * a1 <= 0x4000_0000_0000_0000_0000_0000_0000_0000,
        -0x4000_0000_0000_0000_0000_0000_0000_0000 <= w.w2 * a2 <= 0x4000_0000_0000_0000_0000_0000_0000_0000,
        -0x4000_0000_0000_0000_0000_0000_0000_0000 <= w.w0 * a0 + w.w1 * a1
            <= 0x4000_0000_0000_0000_0000_0000_0000_0000,
        -0x4000_0000_0000_0000_0000_0000_0000_0000 <= w.w0 * a0 + w.w1 * a1 + w.w2 * a2
            <= 0x4000_0000_0000_0000_0000_0000_0000_0000,
{
    let lo = min3_spec(a0, a1, a2);
    let hi = max3_spec(a0, a1, a2);
    let s = w.sum();
    let w0 = w.w0 as int;
    let w1 = w.w1 as int;
    let w2 = w.w2 as int;
    assert(lo * w0 <= w0 * a0 <= hi * w0) by (nonlinear_arith)
        requires
            w0 >= 0,
            lo <= a0 <= hi,
    ;
    assert(lo * w1 <= w1 * a1 <= hi * w1) by (nonlinear_arith)
        requires
            w1 >= 0,
            lo <= a1 <= hi,
    ;
    assert(lo * w2 <= w2 * a2 <= hi * w2) by (nonlinear_arith)
        requires
            w2 >= 0,
            lo <= a2 <= hi,
    ;
    assert(lo * s == lo * w0 + lo * w1 + lo * w2 && hi * s == hi * w0 + hi * w1 + hi * w2) by (nonlinear_arith)
        requires
            s == w0 + w1 + w2,
    ;
    assert(-0x4000_0000_0000_0000_0000_0000_0000_0000 <= lo * s && hi * s
        <= 0x4000_0000_0000_0000_0000_0000_0000_0000) by (nonlinear_arith)
        requires
            0 < s <= 0x8000_0000_0000_0000_0000_0000,
            -0x8000_0000 <= lo,
            hi <= 0x7fff_ffff,
    ;
    assert(-0x4000_0000_0000_0000_0000_0000_0000_0000 <= lo * w0 + lo * w1 && hi * w0 + hi * w1
        <= 0x4000_0000_0000_0000_0000_0000_0000_0000) by (nonlinear_arith)
        requires
            0 <= w0,
            0 <= w1,
            w0 + w1 <= 0x8000_0000_0000_0000_0000_0000,
            -0x8000_0000 <= lo,
            hi <= 0x7fff_ffff,
    ;
    assert(-0x4000_0000_0000_0000_0000_0000_0000_0000 <= lo * w0 && hi * w0
        <= 0x4000_0000_0000_0000_0000_0000_0000_0000) by (nonlinear_arith)
        requires
            0 <= w0 <= 0x8000_0000_0000_0000_0000_0000,
            -0x8000_0000 <= lo,
            hi <= 0x7fff_ffff,
    ;
    assert(-0x4000_0000_0000_0000_0000_0000_0000_0000 <= lo * w1 && hi * w1
        <= 0x4000_0000_0000_0000_0000_0000_0000_0000) by (nonlinear_arith)
        requires
            0 <= w1 <= 0x8000_0000_0000_0000_0000_0000,
            -0x8000_0000 <= lo,
            hi <= 0x7fff_ffff,
    ;
    assert(-0x4000_0000_0000_0000_0000_0000_0000_0000 <= lo * w2 && hi * w2
        <= 0x4000_0000_0000_0000_0000_0000_0000_0000) by (nonlinear_arith)
        requires
            0 <= w2 <= 0x8000_0000_0000_0000_0000_0000,
            -0x8000_0000 <= lo,
            hi <= 0x7fff_ffff,
    ;
}

/// An interpolated attribute lies between the smallest and the largest of
/// its values at the vertices.
pub proof fn lemma_interpolated_between(w: BarycentricWeights, a0: int, a1: int, a2: int)
    requires
        w.valid(),
        i32::MIN <= a0 <= i32::MAX,
        i32::MIN <= a1 <= i32::MAX,
        i32::MIN <= a2 <= i32::MAX,
    ensures
        min3_spec(a0, a1, a2) <= interpolated(w, a0, a1, a2) <= max3_spec(a0, a1, a2),
{
    lemma_weighted_sum_bounds(w, a0, a1, a2);
    lemma_quotient_between(
        w.w0 * a0 + w.w1 * a1 + w.w2 * a2,
        w.sum(),
        min3_spec(a0, a1, a2),
        max3_spec(a0, a1, a2),
    );
}

/// The value at a point of an attribute with the values `a0`, `a1` and `a2`
/// at the vertices.
pub fn interpolate(w: &BarycentricWeights, a0: i32, a1: i32, a2: i32) -> (a: i32)
    requires
        w.valid(),
    ensures
        a == interpolated(*w, a0 as int, a1 as int, a2 as int),
        min3_spec(a0 as int, a1 as int, a2 as int) <= a <= max3_spec(a0 as int, a1 as int, a2 as int),
{
    proof {
        lemma_weighted_sum_bounds(*w, a0 as int, a1 as int, a2 as int);
        lemma_interpolated_between(*w, a0 as int, a1 as int, a2 as int);
    }
    let t0: i128 = w.w0 * (a0 as i128);
    let t1: i128 = w.w1 * (a1 as i128);
    let t2: i128 = w.w2 * (a2 as i128);
    let total: i128 = t0 + t1 + t2;
    let sum: i128 = w.w0 + w.w1 + w.w2;
    let q: i128 = floor_div(total, sum);
    q as i32
}

/// The value at a point of a vector attribute, component by component.
pub open spec fn interpolated_vector(w: BarycentricWeights, a0: Vector3, a1: Vector3, a2: Vector3) -> Vector3 {
    Vector3 {
        x: interpolated(w, a0.x as int, a1.x as int, a2.x as int) as i32,
        y: interpolated(w, a0.y as int, a1.y as int, a2.y as int) as i32,
        z: interpolated(w, a0.z as int, a1.z as int, a2.z as int) as i32,
    }
}

/// A grid of texels: the sample points of a texture.
#[derive(Debug)]
pub struct TextureArray {
    width: usize,
    height: usize,
    data: Vec<Vec<Vector3>>,
}

impl View for TextureArray {
    type V = Seq<Seq<Vector3>>;

    /// The rows of texels.
    closed spec fn view(&self) -> Seq<Seq<Vector3>> {
        rows_view(self.data@)
    }
}

fn put_texel(rows: &mut Vec<Vec<Vector3>>, row: usize, col: usize, texel: Vector3)
    requires
        row < old(rows)@.len(),
        col < old(rows)@[row as int].len(),
    ensures
        final(rows)@.len() == old(rows)@.len(),
        final(rows)@[row as int]@ == old(rows)@[row as int]@.update(col as int, texel),
        forall|k: int| 0 <= k < old(rows)@.len() && k != row ==> final(rows)@[k] == old(rows)@[k],
    no_unwind
{
    rows[row][col] = texel;
}

impl TextureArray {
    #[verifier::type_invariant]
    spec fn well_formed(&self) -> bool {
        &&& self.data@.len() == self.height
        &&& forall|i: int| 0 <= i < self.data@.len() ==> (#[trigger] self.data@[i]).len() == self.width
    }

    /// The number of texels in a row.
    pub closed spec fn spec_width(&self) -> usize {
        self.width
    }

    /// The number of rows.
    pub closed spec fn spec_height(&self) -> usize {
        self.height
    }

    /// A grid of `width` by `height` black texels.
    pub fn new(width: usize, height: usize) -> (t: TextureArray)
        ensures
            t.spec_width() == width,
            t.spec_height() == height,
            t@ == filled(width as int, height as int, Vector3 { x: 0, y: 0, z: 0 }),
    {
        let black = Vector3 { x: 0, y: 0, z: 0 };
        let mut data: Vec<Vec<Vector3>> = Vec::with_capacity(height);
        let mut i: usize = 0;
        while i < height
            invariant
                i <= height,
                data@.len() == i,
                black == (Vector3 { x: 0, y: 0, z: 0 }),
                forall|k: int| 0 <= k < i ==> (#[trigger] data@[k])@ == Seq::new(width as nat, |j: int| black),
            decreases height - i,
        {
            let mut row: Vec<Vector3> = Vec::with_capacity(width);
            let mut j: usize = 0;
            while j < width
                invariant
                    j <= width,
                    row@.len() == j,
                    forall|k: int| 0 <= k < j ==> row@[k] == black,
                decreases width - j,
            {
                row.push(black);
                j = j + 1;
            }
            assert(row@ =~= Seq::new(width as nat, |j: int| black));
            data.push(row);
            i = i + 1;
        }
        let t = TextureArray { width, height, data };
        assert(t@ =~= filled(width as int, height as int, black));
        t
    }

    /// The number of texels in a row.
    pub fn width(&self) -> (w: usize)
        ensures
            w == self.spec_width(),
            shaped(self@, w as int, self.spec_height() as int),
    {
        proof {
            use_type_invariant(self);
        }
        self.width
    }

    /// The number of rows.
    pub fn height(&self) -> (h: usize)
        ensures
            h == self.spec_height(),
            shaped(self@, self.spec_width() as int, h as int),
    {
        proof {
            use_type_invariant(self);
        }
        self.height
    }

    /// The texels of row `index`.
    pub fn index(&self, index: usize) -> (row: &[Vector3])
        requires
            index < self.spec_height(),
        ensures
            row@ == self@[index as int],
    {
        proof {
            use_type_invariant(self);
        }
        self.data[index].as_slice()
    }

    /// Replaces the texel in row `row` and column `col`.
    pub fn set_texel(&mut self, row: usize, col: usize, texel: Vector3)
        requires
            row < old(self).spec_height(),
            col < old(self).spec_width(),
        ensures
            final(self).spec_width() == old(self).spec_width(),
            final(self).spec_height() == old(self).spec_height(),
            final(self)@ == with_cell(old(self)@, row as int, col as int, texel),
    {
        proof {
            use_type_invariant(&*self);
        }
        put_texel(&mut self.data, row, col, texel);
        assert(self@ =~= with_cell(old(self)@, row as int, col as int, texel));
    }

    /// The texel in row `row` and column `col`.
    pub fn get_texel(&self, row: usize, col: usize) -> (texel: Vector3)
        requires
            row < self.spec_height(),
            col < self.spec_width(),
        ensures
            texel == self@[row as int][col as int],
    {
        proof {
            use_type_invariant(self);
        }
        self.data[row][col]
    }
}

/// The index of the texel nearest to the texture coordinate `u` in a row
/// or column of `size` texels that spans the coordinates from zero to one:
/// the whole part of `u` times `size`, kept within the row.
pub open spec fn nearest_texel(u: int, size: int) -> int {
    if u < 0 {
        0
    } else if (u * size) / (ONE as int) >= size {
        size - 1
    } else {
        (u * size) / (ONE as int)
    }
}

fn nearest(u: i32, size: usize) -> (i: usize)
    requires
        size > 0,
    ensures
        i == nearest_texel(u as int, size as int),
        i < size,
{
    if u < 0 {
        return 0;
    }
    assert(0 <= (u as int) * (size as int) <= 0x8000_0000_0000_0000_0000_0000) by (nonlinear_arith)
        requires
            0 <= u <= 0x7fff_ffff,
            0 <= size <= 0xffff_ffff_ffff_ffff,
    ;
    let scaled: u128 = (u as u128) * (size as u128);
    let index: u128 = scaled / 65536;
    if index >= size as u128 {
        size - 1
    } else {
        index as usize
    }
}

/// A texture: a grid of texels that is looked up by texture coordinates.
#[derive(Debug)]
pub struct Texture {
    data: Box<TextureArray>,
}

impl Texture {
    /// The texels of the texture.
    pub closed spec fn texels(&self) -> Seq<Seq<Vector3>> {
        self.data@
    }

    /// The number of texels in a row.
    pub closed spec fn spec_width(&self) -> usize {
        self.data.spec_width()
    }

    /// The number of rows.
    pub closed spec fn spec_height(&self) -> usize {
        self.data.spec_height()
    }

    /// The texture of the given texels.
    pub fn new(data: Box<TextureArray>) -> (t: Texture)
        ensures
            t.texels() == data@,
            t.spec_width() == data.spec_width(),
            t.spec_height() == data.spec_height(),
    {
        Texture { data }
    }

    /// The texel nearest to the texture coordinate `(u, v)`, where `u` runs
    /// along the rows and `v` from row to row, both from zero to one.
    /// Coordinates outside of that take the texel at the border. Nothing
    /// is returned when the texture has no texels.
    pub fn lookup(&self, u: i32, v: i32) -> (r: Option<Vector3>)
        ensures
            r.is_some() <==> self.spec_width() > 0 && self.spec_height() > 0,
            r matches Some(texel) ==> texel == self.texels()[nearest_texel(v as int, self.spec_height() as int)][
                nearest_texel(u as int, self.spec_width() as int)
            ],
    {
        let width = self.data.width();
        let height = self.data.height();
        if width == 0 || height == 0 {
            return None;
        }
        let i = nearest(u, width);
        let j = nearest(v, height);
        Some(self.data.get_texel(j, i))
    }
}

} // verus!
