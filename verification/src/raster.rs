//! The triangle rasterizer.
//!
//! Raster-space positions are integers in units of 1/256 of a pixel: the
//! pixel in column `col` and row `row` has its centre at
//! `(256 * col + 128, 256 * row + 128)`. The third coordinate of a
//! raster-space point is its view-space depth, the distance from the eye
//! along the gaze direction, between 1 and [`MAX_DEPTH`].
//!
//! A pixel belongs to a triangle when its centre is inside the triangle or
//! exactly on one of its edges. Two triangles that share an edge therefore
//! both cover a pixel centre on that edge; the depth test, which only lets a
//! strictly closer surface through, gives such a pixel to the nearer
//! triangle, and to the one drawn first when both are equally deep.

use vstd::prelude::*;
use crate::fixed::{floor_div, max3, max3_spec, min3, min3_spec};
use crate::geometry::Point3;
use crate::shader::texture::{interpolate, interpolated, lemma_interpolated_between};
use crate::vertex::valid_depth;
use crate::z_buffer::MAX_DEPTH;

verus! {

/// The number of position units in a pixel.
pub const SUBPIXELS: i32 = 256;

/// Half a pixel in position units: the offset of a pixel's centre.
pub const HALF_PIXEL: i32 = 128;

/// The largest magnitude that a coordinate of a drawable triangle can have.
pub const MAX_COORD: i32 = 4194304;

/// Twice the signed area of the triangle `(a, b, p)`: zero when `p` is on
/// the line through `a` and `b`, and of opposite signs on its two sides.
pub open spec fn edge(ax: int, ay: int, bx: int, by: int, px: int, py: int) -> int {
    (px - ax) * (by - ay) - (py - ay) * (bx - ax)
}

/// The edge function of two vertices at a point.
pub open spec fn edge_at(a: Point3, b: Point3, p: Point3) -> int {
    edge(a.x as int, a.y as int, b.x as int, b.y as int, p.x as int, p.y as int)
}

/// The signed area of a triangle, in the units of the edge function.
pub open spec fn signed_area(v0: Point3, v1: Point3, v2: Point3) -> int {
    edge_at(v0, v1, v2)
}

/// The magnitude of an integer.
pub open spec fn magnitude(x: int) -> int {
    if x < 0 {
        -x
    } else {
        x
    }
}

/// The three edge functions of a triangle at one point. Divided by their
/// sum, the triangle's signed area, they are the barycentric coordinates of
/// the point.
#[derive(Copy, Clone, Debug, PartialEq, Eq, Structural)]
pub struct BarycentricWeights {
    pub w0: i128,
    pub w1: i128,
    pub w2: i128,
}

/// The largest sum that the weights handed to a shader can have.
pub const MAX_WEIGHT_SUM: i128 = 0x8000_0000_0000_0000_0000_0000;

impl BarycentricWeights {
    /// The sum of the three weights.
    pub open spec fn sum(self) -> int {
        self.w0 + self.w1 + self.w2
    }

    /// Whether the weights describe a point of the triangle: none is
    /// negative, and their sum is positive and not above
    /// [`MAX_WEIGHT_SUM`].
    pub open spec fn valid(self) -> bool {
        &&& self.w0 >= 0
        &&& self.w1 >= 0
        &&& self.w2 >= 0
        &&& 0 < self.sum() <= MAX_WEIGHT_SUM
    }

    /// Whether the point lies in the triangle of signed area `area`: the
    /// area is not zero and no weight has the sign opposite to it.
    pub open spec fn inside(self, area: int) -> bool {
        ||| area > 0 && self.w0 >= 0 && self.w1 >= 0 && self.w2 >= 0
        ||| area < 0 && self.w0 <= 0 && self.w1 <= 0 && self.w2 <= 0
    }

    pub fn new(w0: i128, w1: i128, w2: i128) -> (w: BarycentricWeights)
        ensures
            w == (BarycentricWeights { w0, w1, w2 }),
    {
        BarycentricWeights { w0, w1, w2 }
    }

    /// Whether the weights describe a point of the triangle, as a shader
    /// asks of them.
    pub fn is_valid(&self) -> (r: bool)
        ensures
            r == self.valid(),
    {
        if self.w0 < 0 || self.w1 < 0 || self.w2 < 0 || self.w0 > MAX_WEIGHT_SUM || self.w1 > MAX_WEIGHT_SUM
            || self.w2 > MAX_WEIGHT_SUM {
            return false;
        }
        let sum: i128 = self.w0 + self.w1 + self.w2;
        0 < sum && sum <= MAX_WEIGHT_SUM
    }

    /// Whether the point lies in the triangle of signed area `area`.
    pub fn is_inside(&self, area: i128) -> (r: bool)
        ensures
            r == self.inside(area as int),
    {
        (area > 0 && self.w0 >= 0 && self.w1 >= 0 && self.w2 >= 0) || (area < 0 && self.w0 <= 0
            && self.w1 <= 0 && self.w2 <= 0)
    }
}

/// The weights of the point `p` in the triangle `(v0, v1, v2)`.
pub open spec fn weights_at(v0: Point3, v1: Point3, v2: Point3, p: Point3) -> BarycentricWeights {
    BarycentricWeights {
        w0: edge_at(v1, v2, p) as i128,
        w1: edge_at(v2, v0, p) as i128,
        w2: edge_at(v0, v1, p) as i128,
    }
}

/// The edge function of any three points with 32-bit coordinates fits well
/// within 128 bits.
pub proof fn lemma_edge_range(a: Point3, b: Point3, p: Point3)
    ensures
        -0x8_0000_0000_0000_0000 <= edge_at(a, b, p) <= 0x8_0000_0000_0000_0000,
{
    let dx = p.x - a.x;
    let ey = b.y - a.y;
    let dy = p.y - a.y;
    let ex = b.x - a.x;
    assert(-0x4_0000_0000_0000_0000 <= dx * ey <= 0x4_0000_0000_0000_0000) by (nonlinear_arith)
        requires
            -0x1_0000_0000 <= dx <= 0x1_0000_0000,
            -0x1_0000_0000 <= ey <= 0x1_0000_0000,
    ;
    assert(-0x4_0000_0000_0000_0000 <= dy * ex <= 0x4_0000_0000_0000_0000) by (nonlinear_arith)
        requires
            -0x1_0000_0000 <= dy <= 0x1_0000_0000,
            -0x1_0000_0000 <= ex <= 0x1_0000_0000,
    ;
}

/// On which side of the edge from `v1` to `v2` the point `p` lies: the
/// edge function of the two vertices at `p`.
pub fn compute_edge(v1: &Point3, v2: &Point3, p: &Point3) -> (e: i128)
    ensures
        e == edge_at(*v1, *v2, *p),
{
    proof {
        lemma_edge_range(*v1, *v2, *p);
    }
    let dx: i128 = (p.x as i128) - (v1.x as i128);
    let ey: i128 = (v2.y as i128) - (v1.y as i128);
    let dy: i128 = (p.y as i128) - (v1.y as i128);
    let ex: i128 = (v2.x as i128) - (v1.x as i128);
    assert(-0x4_0000_0000_0000_0000 <= dx * ey <= 0x4_0000_0000_0000_0000) by (nonlinear_arith)
        requires
            -0x1_0000_0000 <= dx <= 0x1_0000_0000,
            -0x1_0000_0000 <= ey <= 0x1_0000_0000,
    ;
    assert(-0x4_0000_0000_0000_0000 <= dy * ex <= 0x4_0000_0000_0000_0000) by (nonlinear_arith)
        requires
            -0x1_0000_0000 <= dy <= 0x1_0000_0000,
            -0x1_0000_0000 <= ex <= 0x1_0000_0000,
    ;
    dx * ey - dy * ex
}

/// The edge functions of the triangle `(v0, v1, v2)` at the point `p`.
/// Their sum is the triangle's signed area.
pub fn barycentric_coords(v0: &Point3, v1: &Point3, v2: &Point3, p: &Point3) -> (w: BarycentricWeights)
    ensures
        w == weights_at(*v0, *v1, *v2, *p),
        w.w0 == edge_at(*v1, *v2, *p),
        w.w1 == edge_at(*v2, *v0, *p),
        w.w2 == edge_at(*v0, *v1, *p),
        w.sum() == signed_area(*v0, *v1, *v2),
{
    proof {
        lemma_edge_range(*v1, *v2, *p);
        lemma_edge_range(*v2, *v0, *p);
        lemma_edge_range(*v0, *v1, *p);
        lemma_weights_sum(*v0, *v1, *v2, *p);
    }
    let w0 = compute_edge(v1, v2, p);
    let w1 = compute_edge(v2, v0, p);
    let w2 = compute_edge(v0, v1, p);
    BarycentricWeights::new(w0, w1, w2)
}

/// The signed area of the triangle `(v0, v1, v2)`, in the units of the edge
/// function: its sign tells the winding order, and it is zero when the
/// vertices are on one line. Rotating the vertices keeps it, and reversing
/// their order flips its sign.
pub fn compute_area(v0: &Point3, v1: &Point3, v2: &Point3) -> (a: i128)
    ensures
        a == signed_area(*v0, *v1, *v2),
        a == signed_area(*v1, *v2, *v0),
        a == signed_area(*v2, *v0, *v1),
        a == -signed_area(*v2, *v1, *v0),
        a == -signed_area(*v0, *v2, *v1),
        a == -signed_area(*v1, *v0, *v2),
{
    proof {
        lemma_area_permutation(*v0, *v1, *v2);
    }
    compute_edge(v0, v1, v2)
}

/// The magnitude of the signed area of the triangle `(v0, v1, v2)`: the
/// same for every order of the vertices.
pub fn compute_area_magnitude(v0: &Point3, v1: &Point3, v2: &Point3) -> (a: i128)
    ensures
        a == magnitude(signed_area(*v0, *v1, *v2)),
        a >= 0,
{
    proof {
        lemma_edge_range(*v0, *v1, *v2);
    }
    let e = compute_edge(v0, v1, v2);
    if e < 0 {
        -e
    } else {
        e
    }
}

/// The three edge functions of a triangle at any point add up to the
/// triangle's signed area.
pub proof fn lemma_weights_sum(v0: Point3, v1: Point3, v2: Point3, p: Point3)
    ensures
        edge_at(v1, v2, p) + edge_at(v2, v0, p) + edge_at(v0, v1, p) == signed_area(v0, v1, v2),
{
    lemma_edge_sum(
        v0.x as int,
        v0.y as int,
        v1.x as int,
        v1.y as int,
        v2.x as int,
        v2.y as int,
        p.x as int,
        p.y as int,
    );
}

/// The three edge functions of a triangle at any point add up to the
/// triangle's signed area.
pub proof fn lemma_edge_sum(x0: int, y0: int, x1: int, y1: int, x2: int, y2: int, px: int, py: int)
    ensures
        edge(x1, y1, x2, y2, px, py) + edge(x2, y2, x0, y0, px, py) + edge(x0, y0, x1, y1, px, py) == edge(
            x0,
            y0,
            x1,
            y1,
            x2,
            y2,
        ),
{
    lemma_edge_expanded(x1, y1, x2, y2, px, py);
    lemma_edge_expanded(x2, y2, x0, y0, px, py);
    lemma_edge_expanded(x0, y0, x1, y1, px, py);
    lemma_edge_expanded(x0, y0, x1, y1, x2, y2);
    assert(x2 * y1 == y1 * x2 && x2 * y0 == y0 * x2 && x0 * y1 == y1 * x0 && x1 * y2 == y2 * x1 && x0 * y2
        == y2 * x0 && x1 * y0 == y0 * x1) by (nonlinear_arith);
}

/// The edge function written out as a sum of products.
pub proof fn lemma_edge_expanded(ax: int, ay: int, bx: int, by: int, px: int, py: int)
    ensures
        edge(ax, ay, bx, by, px, py) == px * by - px * ay - ax * by - py * bx + py * ax + ay * bx,
{
    assert((px - ax) * (by - ay) == px * by - px * ay - ax * by + ax * ay) by (nonlinear_arith);
    assert((py - ay) * (bx - ax) == py * bx - py * ax - ay * bx + ay * ax) by (nonlinear_arith);
    assert(ax * ay == ay * ax) by (nonlinear_arith);
}

/// At a vertex of the triangle the weight of that vertex is the whole
/// signed area and the other two weights are zero: divided by the area, the
/// weights at `v0`, `v1` and `v2` are `(1, 0, 0)`, `(0, 1, 0)` and
/// `(0, 0, 1)`.
pub proof fn lemma_barycentric_identity(v0: Point3, v1: Point3, v2: Point3)
    ensures
        weights_at(v0, v1, v2, v0).w0 == signed_area(v0, v1, v2),
        weights_at(v0, v1, v2, v0).w1 == 0,
        weights_at(v0, v1, v2, v0).w2 == 0,
        weights_at(v0, v1, v2, v1).w0 == 0,
        weights_at(v0, v1, v2, v1).w1 == signed_area(v0, v1, v2),
        weights_at(v0, v1, v2, v1).w2 == 0,
        weights_at(v0, v1, v2, v2).w0 == 0,
        weights_at(v0, v1, v2, v2).w1 == 0,
        weights_at(v0, v1, v2, v2).w2 == signed_area(v0, v1, v2),
{
    lemma_edge_range(v1, v2, v0);
    lemma_edge_range(v2, v0, v1);
    lemma_edge_range(v0, v1, v2);
    lemma_edge_range(v2, v0, v0);
    lemma_edge_range(v0, v1, v0);
    lemma_edge_range(v1, v2, v1);
    lemma_edge_range(v0, v1, v1);
    lemma_edge_range(v1, v2, v2);
    lemma_edge_range(v2, v0, v2);
    lemma_area_permutation(v0, v1, v2);
    assert(edge_at(v2, v0, v0) == 0) by (nonlinear_arith);
    assert(edge_at(v0, v1, v0) == 0) by (nonlinear_arith);
    assert(edge_at(v1, v2, v1) == 0) by (nonlinear_arith);
    assert(edge_at(v0, v1, v1) == 0) by (nonlinear_arith);
    assert(edge_at(v1, v2, v2) == 0) by (nonlinear_arith);
    assert(edge_at(v2, v0, v2) == 0) by (nonlinear_arith);
}

/// Rotating the vertices of a triangle keeps its signed area, and
/// reversing their order flips its sign; the area itself is the same for
/// every order.
pub proof fn lemma_area_permutation(v0: Point3, v1: Point3, v2: Point3)
    ensures
        signed_area(v1, v2, v0) == signed_area(v0, v1, v2),
        signed_area(v2, v0, v1) == signed_area(v0, v1, v2),
        signed_area(v2, v1, v0) == -signed_area(v0, v1, v2),
        signed_area(v0, v2, v1) == -signed_area(v0, v1, v2),
        signed_area(v1, v0, v2) == -signed_area(v0, v1, v2),
        magnitude(signed_area(v1, v2, v0)) == magnitude(signed_area(v0, v1, v2)),
        magnitude(signed_area(v2, v0, v1)) == magnitude(signed_area(v0, v1, v2)),
        magnitude(signed_area(v2, v1, v0)) == magnitude(signed_area(v0, v1, v2)),
        magnitude(signed_area(v0, v2, v1)) == magnitude(signed_area(v0, v1, v2)),
        magnitude(signed_area(v1, v0, v2)) == magnitude(signed_area(v0, v1, v2)),
{
    let x0 = v0.x as int;
    let y0 = v0.y as int;
    let x1 = v1.x as int;
    let y1 = v1.y as int;
    let x2 = v2.x as int;
    let y2 = v2.y as int;
    assert(edge(x1, y1, x2, y2, x0, y0) == edge(x0, y0, x1, y1, x2, y2)) by (nonlinear_arith);
    assert(edge(x2, y2, x0, y0, x1, y1) == edge(x0, y0, x1, y1, x2, y2)) by (nonlinear_arith);
    assert(edge(x2, y2, x1, y1, x0, y0) == -edge(x0, y0, x1, y1, x2, y2)) by (nonlinear_arith);
    assert(edge(x0, y0, x2, y2, x1, y1) == -edge(x0, y0, x1, y1, x2, y2)) by (nonlinear_arith);
    assert(edge(x1, y1, x0, y0, x2, y2) == -edge(x0, y0, x1, y1, x2, y2)) by (nonlinear_arith);
}

/// The bounding box of a triangle on the screen, in whole pixels: no pixel
/// centre left of column `x_min`, right of column `x_max`, below row `y_min`
/// or above row `y_max` is inside the triangle.
#[derive(Copy, Clone, Debug, PartialEq, Eq, Structural)]
pub struct BoundingBox {
    pub x_min: i32,
    pub x_max: i32,
    pub y_min: i32,
    pub y_max: i32,
}

/// The greatest whole pixel coordinate not above the position `v`.
pub open spec fn pixel_floor(v: int) -> int {
    v / (SUBPIXELS as int)
}

/// The least whole pixel coordinate not below the position `v`.
pub open spec fn pixel_ceil(v: int) -> int {
    (v + SUBPIXELS - 1) / (SUBPIXELS as int)
}

/// The position of the centre of the pixel with the given index.
pub open spec fn pixel_center(index: int) -> int {
    SUBPIXELS * index + HALF_PIXEL
}

/// The bounding box of the triangle `(p1, p2, p3)`.
pub open spec fn bounding_box_spec(p1: Point3, p2: Point3, p3: Point3) -> BoundingBox {
    BoundingBox {
        x_min: pixel_floor(min3_spec(p1.x as int, p2.x as int, p3.x as int)) as i32,
        x_max: pixel_ceil(max3_spec(p1.x as int, p2.x as int, p3.x as int)) as i32,
        y_min: pixel_floor(min3_spec(p1.y as int, p2.y as int, p3.y as int)) as i32,
        y_max: pixel_ceil(max3_spec(p1.y as int, p2.y as int, p3.y as int)) as i32,
    }
}

/// The bounding box of a triangle on the screen: the floor of the least and
/// the ceiling of the greatest coordinate of its vertices, in whole pixels.
/// The boundaries of the image frame play no part in it.
pub fn bounding_box(p1: &Point3, p2: &Point3, p3: &Point3) -> (b: BoundingBox)
    ensures
        b == bounding_box_spec(*p1, *p2, *p3),
        b.x_min == pixel_floor(min3_spec(p1.x as int, p2.x as int, p3.x as int)),
        b.x_max == pixel_ceil(max3_spec(p1.x as int, p2.x as int, p3.x as int)),
        b.y_min == pixel_floor(min3_spec(p1.y as int, p2.y as int, p3.y as int)),
        b.y_max == pixel_ceil(max3_spec(p1.y as int, p2.y as int, p3.y as int)),
        b.x_min <= b.x_max,
        b.y_min <= b.y_max,
{
    let x_min: i128 = floor_div(min3(p1.x, p2.x, p3.x) as i128, SUBPIXELS as i128);
    let x_max: i128 = floor_div(max3(p1.x, p2.x, p3.x) as i128 + (SUBPIXELS as i128) - 1, SUBPIXELS as i128);
    let y_min: i128 = floor_div(min3(p1.y, p2.y, p3.y) as i128, SUBPIXELS as i128);
    let y_max: i128 = floor_div(max3(p1.y, p2.y, p3.y) as i128 + (SUBPIXELS as i128) - 1, SUBPIXELS as i128);
    BoundingBox { x_min: x_min as i32, x_max: x_max as i32, y_min: y_min as i32, y_max: y_max as i32 }
}

/// The three edge functions of a triangle at the centre of the pixel in
/// column `col` and row `row`.
pub open spec fn pixel_weights(v0: Point3, v1: Point3, v2: Point3, col: int, row: int) -> (int, int, int) {
    (
        edge(v1.x as int, v1.y as int, v2.x as int, v2.y as int, pixel_center(col), pixel_center(row)),
        edge(v2.x as int, v2.y as int, v0.x as int, v0.y as int, pixel_center(col), pixel_center(row)),
        edge(v0.x as int, v0.y as int, v1.x as int, v1.y as int, pixel_center(col), pixel_center(row)),
    )
}

/// Whether the triangle covers the pixel in column `col` and row `row`: its
/// area is not zero and the pixel's centre is inside it or on one of its
/// edges, so that no edge function at the centre has the sign opposite to
/// the area.
pub open spec fn covers(v0: Point3, v1: Point3, v2: Point3, col: int, row: int) -> bool {
    let area = signed_area(v0, v1, v2);
    let w = pixel_weights(v0, v1, v2, col, row);
    ||| area > 0 && w.0 >= 0 && w.1 >= 0 && w.2 >= 0
    ||| area < 0 && w.0 <= 0 && w.1 <= 0 && w.2 <= 0
}

/// A point whose edge functions do not have the sign opposite to the
/// triangle's area lies between the least and the greatest coordinate of
/// the vertices.
pub proof fn lemma_inside_is_between(x0: int, y0: int, x1: int, y1: int, x2: int, y2: int, px: int, py: int)
    requires
        ({
            let area = edge(x0, y0, x1, y1, x2, y2);
            let w0 = edge(x1, y1, x2, y2, px, py);
            let w1 = edge(x2, y2, x0, y0, px, py);
            let w2 = edge(x0, y0, x1, y1, px, py);
            ||| area > 0 && w0 >= 0 && w1 >= 0 && w2 >= 0
            ||| area < 0 && w0 <= 0 && w1 <= 0 && w2 <= 0
        }),
    ensures
        min3_spec(x0, x1, x2) <= px <= max3_spec(x0, x1, x2),
        min3_spec(y0, y1, y2) <= py <= max3_spec(y0, y1, y2),
{
    let area = edge(x0, y0, x1, y1, x2, y2);
    let w0 = edge(x1, y1, x2, y2, px, py);
    let w1 = edge(x2, y2, x0, y0, px, py);
    let w2 = edge(x0, y0, x1, y1, px, py);
    lemma_edge_sum(x0, y0, x1, y1, x2, y2, px, py);
    lemma_weighted_position(x0, y0, x1, y1, x2, y2, px, py);
    lemma_average_between(area, w0, w1, w2, x0, x1, x2, px);
    lemma_average_between(area, w0, w1, w2, y0, y1, y2, py);
}

/// The edge functions at a point weigh the vertices so that their weighted
/// sum is the point times the signed area.
pub proof fn lemma_weighted_position(x0: int, y0: int, x1: int, y1: int, x2: int, y2: int, px: int, py: int)
    ensures
        edge(x1, y1, x2, y2, px, py) * x0 + edge(x2, y2, x0, y0, px, py) * x1 + edge(x0, y0, x1, y1, px, py) * x2
            == edge(x0, y0, x1, y1, x2, y2) * px,
        edge(x1, y1, x2, y2, px, py) * y0 + edge(x2, y2, x0, y0, px, py) * y1 + edge(x0, y0, x1, y1, px, py) * y2
            == edge(x0, y0, x1, y1, x2, y2) * py,
{
    let area = edge(x0, y0, x1, y1, x2, y2);
    let w0 = edge(x1, y1, x2, y2, px, py);
    let w1 = edge(x2, y2, x0, y0, px, py);
    let w2 = edge(x0, y0, x1, y1, px, py);
    lemma_edge_sum(x0, y0, x1, y1, x2, y2, px, py);
    let ax = x1 - x0;
    let ay = y1 - y0;
    let bx = x2 - x0;
    let by = y2 - y0;
    let dx = px - x0;
    let dy = py - y0;
    assert(area == bx * ay - by * ax);
    assert(w2 == dx * ay - dy * ax);
    assert(w1 == dy * bx - dx * by) by (nonlinear_arith)
        requires
            w1 == (px - x2) * (y0 - y2) - (py - y2) * (x0 - x2),
            bx == x2 - x0,
            by == y2 - y0,
            dx == px - x0,
            dy == py - y0,
    ;
    // Relative to the first vertex, the weighted sum of the two other
    // vertices is the point times the area.
    assert(w1 * ax + w2 * bx == area * dx) by (nonlinear_arith)
        requires
            area == bx * ay - by * ax,
            w2 == dx * ay - dy * ax,
            w1 == dy * bx - dx * by,
    ;
    assert(w1 * ay + w2 * by == area * dy) by (nonlinear_arith)
        requires
            area == bx * ay - by * ax,
            w2 == dx * ay - dy * ax,
            w1 == dy * bx - dx * by,
    ;
    lemma_recentred_sum(area, w0, w1, w2, x0, x1, x2, px);
    lemma_recentred_sum(area, w0, w1, w2, y0, y1, y2, py);
}

/// A weighted sum of three values, known relative to the first value, is
/// the same sum taken from zero.
pub proof fn lemma_recentred_sum(total: int, w0: int, w1: int, w2: int, a0: int, a1: int, a2: int, p: int)
    requires
        w0 + w1 + w2 == total,
        w1 * (a1 - a0) + w2 * (a2 - a0) == total * (p - a0),
    ensures
        w0 * a0 + w1 * a1 + w2 * a2 == total * p,
{
    assert(w1 * (a1 - a0) == w1 * a1 - w1 * a0) by (nonlinear_arith);
    assert(w2 * (a2 - a0) == w2 * a2 - w2 * a0) by (nonlinear_arith);
    assert(total * (p - a0) == total * p - total * a0) by (nonlinear_arith);
    assert(total * a0 == w0 * a0 + w1 * a0 + w2 * a0) by (nonlinear_arith)
        requires
            w0 + w1 + w2 == total,
    ;
}

/// A weighted average with weights of one sign lies between the least and
/// the greatest of the averaged values.
pub proof fn lemma_average_between(total: int, w0: int, w1: int, w2: int, a0: int, a1: int, a2: int, p: int)
    requires
        w0 + w1 + w2 == total,
        w0 * a0 + w1 * a1 + w2 * a2 == total * p,
        (total > 0 && w0 >= 0 && w1 >= 0 && w2 >= 0) || (total < 0 && w0 <= 0 && w1 <= 0 && w2 <= 0),
    ensures
        min3_spec(a0, a1, a2) <= p <= max3_spec(a0, a1, a2),
{
    let lo = min3_spec(a0, a1, a2);
    let hi = max3_spec(a0, a1, a2);
    lemma_shifted_average(total, w0, w1, w2, a0, a1, a2, p, lo);
    lemma_shifted_average(total, w0, w1, w2, a0, a1, a2, p, hi);
    let d0 = w0 * (a0 - lo);
    let d1 = w1 * (a1 - lo);
    let d2 = w2 * (a2 - lo);
    let e0 = w0 * (a0 - hi);
    let e1 = w1 * (a1 - hi);
    let e2 = w2 * (a2 - hi);
    if total > 0 {
        lemma_product_sign(w0, a0 - lo);
        lemma_product_sign(w1, a1 - lo);
        lemma_product_sign(w2, a2 - lo);
        lemma_product_sign(w0, hi - a0);
        lemma_product_sign(w1, hi - a1);
        lemma_product_sign(w2, hi - a2);
        assert(e0 == -(w0 * (hi - a0)) && e1 == -(w1 * (hi - a1)) && e2 == -(w2 * (hi - a2)))
            by (nonlinear_arith)
            requires
                e0 == w0 * (a0 - hi),
                e1 == w1 * (a1 - hi),
                e2 == w2 * (a2 - hi),
        ;
        assert(p - lo >= 0) by (nonlinear_arith)
            requires
                total > 0,
                total * (p - lo) >= 0,
        ;
        assert(p - hi <= 0) by (nonlinear_arith)
            requires
                total > 0,
                total * (p - hi) <= 0,
        ;
    } else {
        lemma_product_sign(-w0, a0 - lo);
        lemma_product_sign(-w1, a1 - lo);
        lemma_product_sign(-w2, a2 - lo);
        lemma_product_sign(-w0, hi - a0);
        lemma_product_sign(-w1, hi - a1);
        lemma_product_sign(-w2, hi - a2);
        assert(d0 == -((-w0) * (a0 - lo)) && d1 == -((-w1) * (a1 - lo)) && d2 == -((-w2) * (a2 - lo)))
            by (nonlinear_arith)
            requires
                d0 == w0 * (a0 - lo),
                d1 == w1 * (a1 - lo),
                d2 == w2 * (a2 - lo),
        ;
        assert(e0 == (-w0) * (hi - a0) && e1 == (-w1) * (hi - a1) && e2 == (-w2) * (hi - a2))
            by (nonlinear_arith)
            requires
                e0 == w0 * (a0 - hi),
                e1 == w1 * (a1 - hi),
                e2 == w2 * (a2 - hi),
        ;
        assert(p - lo >= 0) by (nonlinear_arith)
            requires
                total < 0,
                total * (p - lo) <= 0,
        ;
        assert(p - hi <= 0) by (nonlinear_arith)
            requires
                total < 0,
                total * (p - hi) >= 0,
        ;
    }
}

/// The product of two numbers that are not negative is not negative.
pub proof fn lemma_product_sign(a: int, b: int)
    requires
        a >= 0,
        b >= 0,
    ensures
        a * b >= 0,
{
    assert(a * b >= 0) by (nonlinear_arith)
        requires
            a >= 0,
            b >= 0,
    ;
}

/// Shifting every averaged value by `c` shifts the weighted sum by `c`
/// times the sum of the weights.
pub proof fn lemma_shifted_average(total: int, w0: int, w1: int, w2: int, a0: int, a1: int, a2: int, p: int, c: int)
    requires
        w0 + w1 + w2 == total,
        w0 * a0 + w1 * a1 + w2 * a2 == total * p,
    ensures
        w0 * (a0 - c) + w1 * (a1 - c) + w2 * (a2 - c) == total * (p - c),
{
    assert(w0 * (a0 - c) == w0 * a0 - w0 * c) by (nonlinear_arith);
    assert(w1 * (a1 - c) == w1 * a1 - w1 * c) by (nonlinear_arith);
    assert(w2 * (a2 - c) == w2 * a2 - w2 * c) by (nonlinear_arith);
    assert(total * (p - c) == total * p - total * c) by (nonlinear_arith);
    assert(total * c == w0 * c + w1 * c + w2 * c) by (nonlinear_arith)
        requires
            w0 + w1 + w2 == total,
    ;
}

/// A pixel that a triangle covers lies in the triangle's bounding box.
pub proof fn lemma_covered_pixel_in_box(v0: Point3, v1: Point3, v2: Point3, col: int, row: int)
    requires
        covers(v0, v1, v2, col, row),
    ensures
        bounding_box_spec(v0, v1, v2).x_min <= col <= bounding_box_spec(v0, v1, v2).x_max,
        bounding_box_spec(v0, v1, v2).y_min <= row <= bounding_box_spec(v0, v1, v2).y_max,
{
    lemma_inside_is_between(
        v0.x as int,
        v0.y as int,
        v1.x as int,
        v1.y as int,
        v2.x as int,
        v2.y as int,
        pixel_center(col),
        pixel_center(row),
    );
}

/// The largest magnitude that the signed area of a drawable triangle can
/// have.
pub const MAX_AREA: i128 = 0x8000_0000_0000;

/// Why a triangle is not drawn.
#[derive(Copy, Clone, Debug, PartialEq, Eq, Structural)]
pub enum DegenerateGeometry {
    /// A vertex lies further than [`MAX_COORD`] from the origin of the
    /// screen.
    Position,
    /// The depth of a vertex is zero, negative or above the largest depth.
    Depth,
    /// The signed area is zero: the vertices lie on one line.
    Area,
}

/// Whether both screen coordinates of `p` have a magnitude of at most
/// [`MAX_COORD`].
pub open spec fn in_range(p: Point3) -> bool {
    &&& -MAX_COORD <= p.x <= MAX_COORD
    &&& -MAX_COORD <= p.y <= MAX_COORD
}

/// Why the triangle `(v0, v1, v2)` is not drawn, if it is not.
pub open spec fn rejection(v0: Point3, v1: Point3, v2: Point3) -> Option<DegenerateGeometry> {
    if !(in_range(v0) && in_range(v1) && in_range(v2)) {
        Some(DegenerateGeometry::Position)
    } else if !(valid_depth(v0.z as int) && valid_depth(v1.z as int) && valid_depth(v2.z as int)) {
        Some(DegenerateGeometry::Depth)
    } else if signed_area(v0, v1, v2) == 0 {
        Some(DegenerateGeometry::Area)
    } else {
        None
    }
}

/// Whether the triangle `(v0, v1, v2)` is drawn: its vertices are on or
/// near the screen, their depths are depths of surfaces, and they do not
/// lie on one line.
pub open spec fn drawable(v0: Point3, v1: Point3, v2: Point3) -> bool {
    rejection(v0, v1, v2) is None
}

fn point_in_range(p: &Point3) -> (r: bool)
    ensures
        r == in_range(*p),
{
    -MAX_COORD <= p.x && p.x <= MAX_COORD && -MAX_COORD <= p.y && p.y <= MAX_COORD
}

fn depth_in_range(p: &Point3) -> (r: bool)
    ensures
        r == valid_depth(p.z as int),
{
    1 <= p.z && p.z <= MAX_DEPTH as i32
}

/// Decides whether a triangle is drawn, and gives its signed area if it is.
pub fn check_triangle(v0: &Point3, v1: &Point3, v2: &Point3) -> (r: Result<i128, DegenerateGeometry>)
    ensures
        r.is_ok() <==> drawable(*v0, *v1, *v2),
        r matches Ok(area) ==> area == signed_area(*v0, *v1, *v2),
        r matches Err(e) ==> rejection(*v0, *v1, *v2) == Some(e),
{
    if !(point_in_range(v0) && point_in_range(v1) && point_in_range(v2)) {
        return Err(DegenerateGeometry::Position);
    }
    if !(depth_in_range(v0) && depth_in_range(v1) && depth_in_range(v2)) {
        return Err(DegenerateGeometry::Depth);
    }
    let area = compute_area(v0, v1, v2);
    if area == 0 {
        return Err(DegenerateGeometry::Area);
    }
    Ok(area)
}

/// The weight `w` with the sign it has in a triangle of positive area.
pub open spec fn oriented(area: int, w: int) -> int {
    if area < 0 {
        -w
    } else {
        w
    }
}

/// The perspective-correct weights of a point: each edge function, taken
/// with the sign that makes it non-negative inside the triangle, times the
/// depths of the two other vertices. Divided by their sum they are the
/// barycentric coordinates of the point divided by the depths of their
/// vertices, scaled to add up to one.
pub open spec fn perspective_weights(area: int, w: (int, int, int), z0: int, z1: int, z2: int) -> BarycentricWeights {
    BarycentricWeights {
        w0: (oriented(area, w.0) * z1 * z2) as i128,
        w1: (oriented(area, w.1) * z0 * z2) as i128,
        w2: (oriented(area, w.2) * z0 * z1) as i128,
    }
}

/// What a triangle contributes to a pixel that it covers.
#[derive(Copy, Clone, Debug, PartialEq, Eq, Structural)]
pub struct Fragment {
    /// The depth of the triangle at the pixel's centre: the vertex depths
    /// averaged with the perspective-correct weights, which is the
    /// reciprocal of the interpolated reciprocal depth.
    pub depth: u32,
    /// The perspective-correct weights of the pixel's centre.
    pub weights: BarycentricWeights,
}

/// What the triangle `(v0, v1, v2)` contributes to the pixel in column
/// `col` and row `row`: nothing when the triangle is not drawable or does
/// not cover the pixel.
pub open spec fn fragment_at(v0: Point3, v1: Point3, v2: Point3, col: int, row: int) -> Option<Fragment> {
    if drawable(v0, v1, v2) && covers(v0, v1, v2, col, row) {
        let q = perspective_weights(
            signed_area(v0, v1, v2),
            pixel_weights(v0, v1, v2, col, row),
            v0.z as int,
            v1.z as int,
            v2.z as int,
        );
        Some(Fragment { depth: interpolated(q, v0.z as int, v1.z as int, v2.z as int) as u32, weights: q })
    } else {
        None
    }
}

/// The signed area of a triangle with vertices on or near the screen.
pub proof fn lemma_area_bound(v0: Point3, v1: Point3, v2: Point3)
    requires
        in_range(v0),
        in_range(v1),
        in_range(v2),
    ensures
        -MAX_AREA <= signed_area(v0, v1, v2) <= MAX_AREA,
{
    let dx = v2.x - v0.x;
    let ey = v1.y - v0.y;
    let dy = v2.y - v0.y;
    let ex = v1.x - v0.x;
    assert(-0x4000_0000_0000 <= dx * ey <= 0x4000_0000_0000) by (nonlinear_arith)
        requires
            -0x80_0000 <= dx <= 0x80_0000,
            -0x80_0000 <= ey <= 0x80_0000,
    ;
    assert(-0x4000_0000_0000 <= dy * ex <= 0x4000_0000_0000) by (nonlinear_arith)
        requires
            -0x80_0000 <= dy <= 0x80_0000,
            -0x80_0000 <= ex <= 0x80_0000,
    ;
}

/// A weight of at most [`MAX_AREA`] times two depths: at least the weight
/// and at most the weight times 2 to the 48.
pub proof fn lemma_perspective_weight(u: int, za: int, zb: int)
    requires
        0 <= u <= MAX_AREA,
        valid_depth(za),
        valid_depth(zb),
    ensures
        0 <= u * za <= 0x80_0000_0000_0000_0000,
        u <= u * za * zb <= u * 0x1_0000_0000_0000,
{
    assert(u <= u * za <= u * 0x100_0000) by (nonlinear_arith)
        requires
            0 <= u,
            1 <= za <= 0xff_ffff,
    ;
    let t = u * za;
    assert(t <= t * zb <= t * 0x100_0000) by (nonlinear_arith)
        requires
            0 <= t,
            1 <= zb <= 0xff_ffff,
    ;
}

/// What a drawable triangle contributes to a pixel that it covers is well
/// formed: the edge functions, taken with the sign of the area, lie between
/// zero and the area's magnitude; the perspective-correct weights are
/// valid; and the depth lies between the least and the greatest depth of
/// the vertices.
pub proof fn lemma_fragment_valid(v0: Point3, v1: Point3, v2: Point3, col: int, row: int)
    requires
        drawable(v0, v1, v2),
        covers(v0, v1, v2, col, row),
    ensures
        ({
            let area = signed_area(v0, v1, v2);
            let w = pixel_weights(v0, v1, v2, col, row);
            let q = perspective_weights(area, w, v0.z as int, v1.z as int, v2.z as int);
            &&& 0 < magnitude(area) <= MAX_AREA
            &&& 0 <= oriented(area, w.0) <= MAX_AREA
            &&& 0 <= oriented(area, w.1) <= MAX_AREA
            &&& 0 <= oriented(area, w.2) <= MAX_AREA
            &&& q.w0 == oriented(area, w.0) * v1.z * v2.z
            &&& q.w1 == oriented(area, w.1) * v0.z * v2.z
            &&& q.w2 == oriented(area, w.2) * v0.z * v1.z
            &&& q.valid()
            &&& min3_spec(v0.z as int, v1.z as int, v2.z as int) <= interpolated(
                q,
                v0.z as int,
                v1.z as int,
                v2.z as int,
            ) <= max3_spec(v0.z as int, v1.z as int, v2.z as int)
            &&& fragment_at(v0, v1, v2, col, row) matches Some(f)
            &&& 1 <= f.depth <= MAX_DEPTH
            &&& f.depth == interpolated(q, v0.z as int, v1.z as int, v2.z as int)
            &&& f.weights == q
        }),
{
    let area = signed_area(v0, v1, v2);
    let w = pixel_weights(v0, v1, v2, col, row);
    let q = perspective_weights(area, w, v0.z as int, v1.z as int, v2.z as int);
    lemma_area_bound(v0, v1, v2);
    lemma_edge_sum(
        v0.x as int,
        v0.y as int,
        v1.x as int,
        v1.y as int,
        v2.x as int,
        v2.y as int,
        pixel_center(col),
        pixel_center(row),
    );
    let u0 = oriented(area, w.0);
    let u1 = oriented(area, w.1);
    let u2 = oriented(area, w.2);
    assert(u0 + u1 + u2 == magnitude(area));
    lemma_perspective_weight(u0, v1.z as int, v2.z as int);
    lemma_perspective_weight(u1, v0.z as int, v2.z as int);
    lemma_perspective_weight(u2, v0.z as int, v1.z as int);
    assert(q.valid());
    lemma_interpolated_between(q, v0.z as int, v1.z as int, v2.z as int);
}

/// The perspective-correct weights of a point of a triangle with the
/// vertex depths `z0`, `z1` and `z2`, from weights of the point that are not
/// negative. Nothing is returned when a depth is not the depth of a
/// surface, a weight is negative, or the sum of the weights is zero or
/// above [`MAX_AREA`].
pub fn perspective_correct_weights(w: &BarycentricWeights, z0: i32, z1: i32, z2: i32) -> (r: Option<
    BarycentricWeights,
>)
    ensures
        r.is_some() <==> {
            &&& valid_depth(z0 as int) && valid_depth(z1 as int) && valid_depth(z2 as int)
            &&& w.w0 >= 0 && w.w1 >= 0 && w.w2 >= 0
            &&& 0 < w.sum() <= MAX_AREA
        },
        r matches Some(q) ==> q.valid() && q == perspective_weights(
            1,
            (w.w0 as int, w.w1 as int, w.w2 as int),
            z0 as int,
            z1 as int,
            z2 as int,
        ),
{
    if !(1 <= z0 && z0 <= MAX_DEPTH as i32 && 1 <= z1 && z1 <= MAX_DEPTH as i32 && 1 <= z2 && z2
        <= MAX_DEPTH as i32) {
        return None;
    }
    if w.w0 < 0 || w.w1 < 0 || w.w2 < 0 || w.w0 > MAX_AREA || w.w1 > MAX_AREA || w.w2 > MAX_AREA {
        return None;
    }
    let sum: i128 = w.w0 + w.w1 + w.w2;
    if sum == 0 || sum > MAX_AREA {
        return None;
    }
    proof {
        lemma_perspective_weight(w.w0 as int, z1 as int, z2 as int);
        lemma_perspective_weight(w.w1 as int, z0 as int, z2 as int);
        lemma_perspective_weight(w.w2 as int, z0 as int, z1 as int);
    }
    Some(
        BarycentricWeights::new(
            w.w0 * (z1 as i128) * (z2 as i128),
            w.w1 * (z0 as i128) * (z2 as i128),
            w.w2 * (z0 as i128) * (z1 as i128),
        ),
    )
}

fn edge_wide(ax: i32, ay: i32, bx: i32, by: i32, px: i128, py: i128) -> (e: i128)
    requires
        -0x400_0000_0000_0000_0000 <= px <= 0x400_0000_0000_0000_0000,
        -0x400_0000_0000_0000_0000 <= py <= 0x400_0000_0000_0000_0000,
    ensures
        e == edge(ax as int, ay as int, bx as int, by as int, px as int, py as int),
{
    let dx: i128 = px - (ax as i128);
    let ey: i128 = (by as i128) - (ay as i128);
    let dy: i128 = py - (ay as i128);
    let ex: i128 = (bx as i128) - (ax as i128);
    assert(-0x1000_0000_0000_0000_0000_0000_0000 <= dx * ey <= 0x1000_0000_0000_0000_0000_0000_0000)
        by (nonlinear_arith)
        requires
            -0x800_0000_0000_0000_0000 <= dx <= 0x800_0000_0000_0000_0000,
            -0x1_0000_0000 <= ey <= 0x1_0000_0000,
    ;
    assert(-0x1000_0000_0000_0000_0000_0000_0000 <= dy * ex <= 0x1000_0000_0000_0000_0000_0000_0000)
        by (nonlinear_arith)
        requires
            -0x800_0000_0000_0000_0000 <= dy <= 0x800_0000_0000_0000_0000,
            -0x1_0000_0000 <= ex <= 0x1_0000_0000,
    ;
    dx * ey - dy * ex
}

/// What a drawable triangle contributes to the pixel in column `col` and
/// row `row`: the perspective-correct weights and the depth at the pixel's
/// centre, or nothing when the triangle does not cover the pixel.
pub fn fragment(v0: &Point3, v1: &Point3, v2: &Point3, col: usize, row: usize) -> (f: Option<Fragment>)
    requires
        drawable(*v0, *v1, *v2),
    ensures
        f == fragment_at(*v0, *v1, *v2, col as int, row as int),
{
    proof {
        lemma_edge_range(*v0, *v1, *v2);
    }
    let area = compute_area(v0, v1, v2);
    let px: i128 = (SUBPIXELS as i128) * (col as i128) + (HALF_PIXEL as i128);
    let py: i128 = (SUBPIXELS as i128) * (row as i128) + (HALF_PIXEL as i128);
    let w0 = edge_wide(v1.x, v1.y, v2.x, v2.y, px, py);
    let w1 = edge_wide(v2.x, v2.y, v0.x, v0.y, px, py);
    let w2 = edge_wide(v0.x, v0.y, v1.x, v1.y, px, py);
    let raw = BarycentricWeights::new(w0, w1, w2);
    if !raw.is_inside(area) {
        return None;
    }
    proof {
        lemma_fragment_valid(*v0, *v1, *v2, col as int, row as int);
    }
    let u0: i128 = if area < 0 {
        -w0
    } else {
        w0
    };
    let u1: i128 = if area < 0 {
        -w1
    } else {
        w1
    };
    let u2: i128 = if area < 0 {
        -w2
    } else {
        w2
    };
    let z0: i128 = v0.z as i128;
    let z1: i128 = v1.z as i128;
    let z2: i128 = v2.z as i128;
    proof {
        lemma_perspective_weight(u0 as int, z1 as int, z2 as int);
        lemma_perspective_weight(u1 as int, z0 as int, z2 as int);
        lemma_perspective_weight(u2 as int, z0 as int, z1 as int);
    }
    let weights = BarycentricWeights::new(u0 * z1 * z2, u1 * z0 * z2, u2 * z0 * z1);
    let depth = interpolate(&weights, v0.z, v1.z, v2.z);
    Some(Fragment { depth: depth as u32, weights })
}

} // verus!
