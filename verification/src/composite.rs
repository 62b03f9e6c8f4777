//! How drawing changes the buffers, pixel by pixel, and what follows from
//! it for the order in which things are drawn.
//!
//! A layer is what one drawing operation contributes: for every pixel
//! either nothing, or a depth and a colour. Drawing a layer with the depth
//! buffer lets it through where it is strictly closer than what the buffer
//! has seen; painting a layer lets it through everywhere.

use vstd::prelude::*;
use crate::color::Rgb;
use crate::grid::{filled, shaped};
use crate::z_buffer::{closer, INFINITELY_FAR, MAX_DEPTH};

verus! {

/// What a drawing operation contributes to one pixel.
#[derive(Copy, Clone, Debug, PartialEq, Eq, Structural)]
pub struct Shaded {
    pub depth: u32,
    pub color: Rgb,
}

/// The depth of a cell after a contribution was drawn with the depth test.
pub open spec fn drawn_depth(stored: u32, s: Option<Shaded>) -> u32 {
    match s {
        Some(shaded) => if closer(shaded.depth, stored) {
            shaded.depth
        } else {
            stored
        },
        None => stored,
    }
}

/// The colour of a pixel after a contribution was drawn with the depth
/// test against the depth `stored`.
pub open spec fn drawn_color(current: Rgb, stored: u32, s: Option<Shaded>) -> Rgb {
    match s {
        Some(shaded) => if closer(shaded.depth, stored) {
            shaded.color
        } else {
            current
        },
        None => current,
    }
}

/// The colour of a pixel after a contribution was painted over it.
pub open spec fn painted_color(current: Rgb, s: Option<Shaded>) -> Rgb {
    match s {
        Some(shaded) => shaded.color,
        None => current,
    }
}

/// The depth buffer after a layer was drawn with the depth test.
pub open spec fn draw_depths(zb: Seq<Seq<u32>>, layer: spec_fn(int, int) -> Option<Shaded>) -> Seq<Seq<u32>> {
    Seq::new(zb.len(), |row: int| Seq::new(zb[row].len(), |col: int| drawn_depth(zb[row][col], layer(row, col))))
}

/// The frame buffer after a layer was drawn with the depth test against the
/// depth buffer `zb`.
pub open spec fn draw_colors(fb: Seq<Seq<Rgb>>, zb: Seq<Seq<u32>>, layer: spec_fn(int, int) -> Option<Shaded>) -> Seq<
    Seq<Rgb>,
> {
    Seq::new(
        fb.len(),
        |row: int| Seq::new(fb[row].len(), |col: int| drawn_color(fb[row][col], zb[row][col], layer(row, col))),
    )
}

/// The frame buffer after a layer was painted over it, without a depth
/// test.
pub open spec fn paint_colors(fb: Seq<Seq<Rgb>>, layer: spec_fn(int, int) -> Option<Shaded>) -> Seq<Seq<Rgb>> {
    Seq::new(fb.len(), |row: int| Seq::new(fb[row].len(), |col: int| painted_color(fb[row][col], layer(row, col))))
}

/// Whether every contribution of the layer has the depth of a surface.
pub open spec fn surface_layer(layer: spec_fn(int, int) -> Option<Shaded>) -> bool {
    forall|row: int, col: int|
        (#[trigger] layer(row, col)) matches Some(shaded) ==> 1 <= shaded.depth <= MAX_DEPTH
}

/// Whether the layer `front` may be drawn after the layer `back` in
/// back-to-front order: wherever both contribute, `front` is strictly
/// closer or has the same colour.
pub open spec fn back_to_front(
    back: spec_fn(int, int) -> Option<Shaded>,
    front: spec_fn(int, int) -> Option<Shaded>,
) -> bool {
    forall|row: int, col: int|
        ((#[trigger] back(row, col)) matches Some(b) && (#[trigger] front(row, col)) matches Some(f)) ==> (closer(
            front(row, col).unwrap().depth,
            back(row, col).unwrap().depth,
        ) || front(row, col).unwrap().color == back(row, col).unwrap().color)
}

/// With an empty depth buffer, drawing one layer of surfaces with the
/// depth test gives the same picture as painting it without one.
pub proof fn lemma_single_layer_needs_no_depth_test(
    fb: Seq<Seq<Rgb>>,
    layer: spec_fn(int, int) -> Option<Shaded>,
    width: int,
    height: int,
)
    requires
        shaped(fb, width, height),
        surface_layer(layer),
    ensures
        draw_colors(fb, filled(width, height, INFINITELY_FAR), layer) == paint_colors(fb, layer),
{
    let zb = filled(width, height, INFINITELY_FAR);
    let d = draw_colors(fb, zb, layer);
    let p = paint_colors(fb, layer);
    assert forall|row: int| 0 <= row < fb.len() implies #[trigger] d[row] == p[row] by {
        assert forall|col: int| 0 <= col < fb[row].len() implies d[row][col] == p[row][col] by {
            assert(zb[row][col] == INFINITELY_FAR);
            let s = layer(row, col);
        }
        assert(d[row] =~= p[row]);
    }
    assert(d =~= p);
}

/// The depths that two layers leave in the depth buffer do not depend on
/// the order in which the layers are drawn.
pub proof fn lemma_depths_order_independent(
    zb: Seq<Seq<u32>>,
    first: spec_fn(int, int) -> Option<Shaded>,
    second: spec_fn(int, int) -> Option<Shaded>,
)
    ensures
        draw_depths(draw_depths(zb, first), second) == draw_depths(draw_depths(zb, second), first),
{
    let a = draw_depths(draw_depths(zb, first), second);
    let b = draw_depths(draw_depths(zb, second), first);
    assert forall|row: int| 0 <= row < zb.len() implies #[trigger] a[row] == b[row] by {
        assert(a[row] =~= b[row]);
    }
    assert(a =~= b);
}

/// Starting from an empty depth buffer, drawing two layers of surfaces
/// with the depth test, in either order, gives the same picture as painting
/// them back to front without a depth test.
pub proof fn lemma_depth_test_matches_back_to_front(
    fb: Seq<Seq<Rgb>>,
    back: spec_fn(int, int) -> Option<Shaded>,
    front: spec_fn(int, int) -> Option<Shaded>,
    width: int,
    height: int,
)
    requires
        shaped(fb, width, height),
        surface_layer(back),
        surface_layer(front),
        back_to_front(back, front),
    ensures
        ({
            let empty = filled(width, height, INFINITELY_FAR);
            let painted = paint_colors(paint_colors(fb, back), front);
            &&& draw_colors(draw_colors(fb, empty, back), draw_depths(empty, back), front) == painted
            &&& draw_colors(draw_colors(fb, empty, front), draw_depths(empty, front), back) == painted
        }),
{
    let empty = filled(width, height, INFINITELY_FAR);
    let painted = paint_colors(paint_colors(fb, back), front);
    let a = draw_colors(draw_colors(fb, empty, back), draw_depths(empty, back), front);
    let b = draw_colors(draw_colors(fb, empty, front), draw_depths(empty, front), back);
    assert forall|row: int| 0 <= row < fb.len() implies #[trigger] a[row] == painted[row] && b[row] == painted[row] by {
        assert forall|col: int| 0 <= col < fb[row].len() implies a[row][col] == painted[row][col] && b[row][col]
            == painted[row][col] by {
            assert(empty[row][col] == INFINITELY_FAR);
            let sb = back(row, col);
            let sf = front(row, col);
        }
        assert(a[row] =~= painted[row]);
        assert(b[row] =~= painted[row]);
    }
    assert(a =~= painted);
    assert(b =~= painted);
}

} // verus!
