//! Rectangular grids as sequences of rows.

use vstd::prelude::*;

verus! {

/// Whether `g` has `height` rows of `width` cells each.
pub open spec fn shaped<T>(g: Seq<Seq<T>>, width: int, height: int) -> bool {
    &&& g.len() == height
    &&& forall|i: int| 0 <= i < g.len() ==> (#[trigger] g[i]).len() == width
}

/// The grid of the given shape with `value` in every cell.
pub open spec fn filled<T>(width: int, height: int, value: T) -> Seq<Seq<T>> {
    Seq::new(height as nat, |i: int| Seq::new(width as nat, |j: int| value))
}

/// The grid `g` with the cell at `(row, col)` replaced by `value`.
pub open spec fn with_cell<T>(g: Seq<Seq<T>>, row: int, col: int, value: T) -> Seq<Seq<T>> {
    g.update(row, g[row].update(col, value))
}

/// The rows of `g` in the opposite order.
pub open spec fn flipped<T>(g: Seq<Seq<T>>) -> Seq<Seq<T>> {
    Seq::new(g.len(), |i: int| g[g.len() - 1 - i])
}

/// The grid that a vector of rows holds.
pub open spec fn rows_view<T>(rows: Seq<Vec<T>>) -> Seq<Seq<T>> {
    Seq::new(rows.len(), |i: int| rows[i]@)
}

} // verus!
