//! The depth buffer: for every pixel the depth of the nearest surface drawn
//! so far.
//!
//! A depth is the distance of a surface from the eye along the gaze
//! direction, so a smaller depth is closer. An empty cell holds
//! [`INFINITELY_FAR`], which is larger than every depth a surface can have.

use vstd::prelude::*;
use crate::grid::{filled, rows_view, shaped, with_cell};

verus! {

/// The depth of an empty cell.
pub const INFINITELY_FAR: u32 = 0xFFFF_FFFF;

/// The largest depth that a surface can have.
pub const MAX_DEPTH: u32 = 0x00FF_FFFF;

/// Whether a surface at depth `depth` is strictly closer to the eye than
/// what a cell holding `stored` has seen.
pub open spec fn closer(depth: u32, stored: u32) -> bool {
    depth < stored
}

/// A grid of `width` by `height` depths.
#[derive(Debug)]
pub struct ZBuffer {
    width: usize,
    height: usize,
    buf: Vec<Vec<u32>>,
}

impl View for ZBuffer {
    type V = Seq<Seq<u32>>;

    /// The rows of the buffer, row 0 first.
    closed spec fn view(&self) -> Seq<Seq<u32>> {
        rows_view(self.buf@)
    }
}

fn put_depth(rows: &mut Vec<Vec<u32>>, row: usize, col: usize, depth: u32)
    requires
        row < old(rows)@.len(),
        col < old(rows)@[row as int].len(),
    ensures
        final(rows)@.len() == old(rows)@.len(),
        final(rows)@[row as int]@ == old(rows)@[row as int]@.update(col as int, depth),
        forall|k: int| 0 <= k < old(rows)@.len() && k != row ==> final(rows)@[k] == old(rows)@[k],
    no_unwind
{
    rows[row][col] = depth;
}

impl ZBuffer {
    #[verifier::type_invariant]
    spec fn well_formed(&self) -> bool {
        &&& self.buf@.len() == self.height
        &&& forall|i: int| 0 <= i < self.buf@.len() ==> (#[trigger] self.buf@[i]).len() == self.width
    }

    /// The number of cells in a row.
    pub closed spec fn spec_width(&self) -> usize {
        self.width
    }

    /// The number of rows.
    pub closed spec fn spec_height(&self) -> usize {
        self.height
    }

    /// A buffer of the given size, every cell empty.
    pub fn new(width: usize, height: usize) -> (zb: ZBuffer)
        ensures
            zb.spec_width() == width,
            zb.spec_height() == height,
            zb@ == filled(width as int, height as int, INFINITELY_FAR),
    {
        let mut buf: Vec<Vec<u32>> = Vec::with_capacity(height);
        let mut i: usize = 0;
        while i < height
            invariant
                i <= height,
                buf@.len() == i,
                forall|k: int| 0 <= k < i ==> (#[trigger] buf@[k])@ == Seq::new(width as nat, |j: int| INFINITELY_FAR),
            decreases height - i,
        {
            let mut row: Vec<u32> = Vec::with_capacity(width);
            let mut j: usize = 0;
            while j < width
                invariant
                    j <= width,
                    row@.len() == j,
                    forall|k: int| 0 <= k < j ==> row@[k] == INFINITELY_FAR,
                decreases width - j,
            {
                row.push(INFINITELY_FAR);
                j = j + 1;
            }
            assert(row@ =~= Seq::new(width as nat, |j: int| INFINITELY_FAR));
            buf.push(row);
            i = i + 1;
        }
        let zb = ZBuffer { width, height, buf };
        assert(zb@ =~= filled(width as int, height as int, INFINITELY_FAR));
        zb
    }

    /// Empties every cell, as at the start of a new frame.
    pub fn initialize(&mut self)
        ensures
            final(self).spec_width() == old(self).spec_width(),
            final(self).spec_height() == old(self).spec_height(),
            final(self)@ == filled(old(self).spec_width() as int, old(self).spec_height() as int, INFINITELY_FAR),
    {
        proof {
            use_type_invariant(&*self);
        }
        let mut i: usize = 0;
        while i < self.height
            invariant
                i <= self.height,
                self.width == old(self).width,
                self.height == old(self).height,
                self.buf@.len() == self.height,
                forall|k: int| 0 <= k < self.buf@.len() ==> (#[trigger] self.buf@[k]).len() == self.width,
                forall|k: int| 0 <= k < i ==> (#[trigger] self.buf@[k])@ == Seq::new(
                    self.width as nat,
                    |j: int| INFINITELY_FAR,
                ),
            decreases self.height - i,
        {
            let mut j: usize = 0;
            while j < self.width
                invariant
                    i < self.height,
                    j <= self.width,
                    self.width == old(self).width,
                    self.height == old(self).height,
                    self.buf@.len() == self.height,
                    forall|k: int| 0 <= k < self.buf@.len() ==> (#[trigger] self.buf@[k]).len() == self.width,
                    forall|k: int| 0 <= k < i ==> (#[trigger] self.buf@[k])@ == Seq::new(
                        self.width as nat,
                        |j: int| INFINITELY_FAR,
                    ),
                    forall|k: int| 0 <= k < j ==> self.buf@[i as int]@[k] == INFINITELY_FAR,
                decreases self.width - j,
            {
                put_depth(&mut self.buf, i, j, INFINITELY_FAR);
                j = j + 1;
            }
            assert(self.buf@[i as int]@ =~= Seq::new(self.width as nat, |j: int| INFINITELY_FAR));
            i = i + 1;
        }
        assert(self@ =~= filled(self.width as int, self.height as int, INFINITELY_FAR));
    }

    /// The number of cells in a row.
    pub fn width(&self) -> (w: usize)
        ensures
            w == self.spec_width(),
            shaped(self@, w as int, self.spec_height() as int),
    {
        proof {
            use_type_invariant(self);
        }
        self.width
    }

    /// The number of rows.
    pub fn height(&self) -> (h: usize)
        ensures
            h == self.spec_height(),
            shaped(self@, self.spec_width() as int, h as int),
    {
        proof {
            use_type_invariant(self);
        }
        self.height
    }

    /// The depth stored for the cell in row `row` and column `col`.
    pub fn depth_at(&self, row: usize, col: usize) -> (d: u32)
        requires
            row < self.spec_height(),
            col < self.spec_width(),
        ensures
            d == self@[row as int][col as int],
    {
        proof {
            use_type_invariant(self);
        }
        self.buf[row][col]
    }

    /// Stores `depth` for the cell in row `row` and column `col`.
    pub fn set_depth(&mut self, row: usize, col: usize, depth: u32)
        requires
            row < old(self).spec_height(),
            col < old(self).spec_width(),
        ensures
            final(self).spec_width() == old(self).spec_width(),
            final(self).spec_height() == old(self).spec_height(),
            final(self)@ == with_cell(old(self)@, row as int, col as int, depth),
    {
        proof {
            use_type_invariant(&*self);
        }
        put_depth(&mut self.buf, row, col, depth);
        assert(self@ =~= with_cell(old(self)@, row as int, col as int, depth));
    }

    /// The depth test: when a surface at depth `depth` is strictly closer
    /// than what the cell has seen, the cell takes that depth and the answer
    /// is `true`; otherwise nothing changes.
    pub fn test_and_set(&mut self, row: usize, col: usize, depth: u32) -> (passed: bool)
        requires
            row < old(self).spec_height(),
            col < old(self).spec_width(),
        ensures
            final(self).spec_width() == old(self).spec_width(),
            final(self).spec_height() == old(self).spec_height(),
            passed == closer(depth, old(self)@[row as int][col as int]),
            passed ==> final(self)@ == with_cell(old(self)@, row as int, col as int, depth),
            !passed ==> final(self)@ == old(self)@,
    {
        proof {
            use_type_invariant(&*self);
        }
        if depth < self.buf[row][col] {
            put_depth(&mut self.buf, row, col, depth);
            assert(self@ =~= with_cell(old(self)@, row as int, col as int, depth));
            true
        } else {
            false
        }
    }

    /// The cells of row `index`.
    pub fn line(&self, index: usize) -> (r: &[u32])
        requires
            index < self.spec_height(),
        ensures
            r@ == self@[index as int],
    {
        proof {
            use_type_invariant(self);
        }
        self.buf[index].as_slice()
    }

    /// An iterator over the rows, row 0 first.
    pub fn lines(&self) -> (it: ZBufferLineIter<'_>)
        ensures
            it.position() == 0,
            it.rows() == self@,
    {
        ZBufferLineIter { index: 0, lines: self.buf.as_slice() }
    }
}

/// A walk over the rows of a depth buffer.
pub struct ZBufferLineIter<'a> {
    index: usize,
    lines: &'a [Vec<u32>],
}

impl<'a> ZBufferLineIter<'a> {
    /// The number of rows handed out so far.
    pub closed spec fn position(&self) -> int {
        self.index as int
    }

    /// The rows of the buffer that is walked over.
    pub closed spec fn rows(&self) -> Seq<Seq<u32>> {
        rows_view(self.lines@)
    }

    /// The next row, or nothing when every row was handed out.
    pub fn next(&mut self) -> (r: Option<&'a [u32]>)
        ensures
            final(self).rows() == old(self).rows(),
            old(self).position() < old(self).rows().len() ==> {
                &&& r matches Some(row)
                &&& row@ == old(self).rows()[old(self).position()]
                &&& final(self).position() == old(self).position() + 1
            },
            old(self).position() >= old(self).rows().len() ==> {
                &&& r.is_none()
                &&& final(self).position() == old(self).position()
            },
    {
        if self.index < self.lines.len() {
            let row: &'a [u32] = self.lines[self.index].as_slice();
            self.index = self.index + 1;
            Some(row)
        } else {
            None
        }
    }
}

/// A new depth buffer of the given size, every cell empty.
pub fn z_buffer(width: usize, height: usize) -> (zb: Box<ZBuffer>)
    ensures
        zb.spec_width() == width,
        zb.spec_height() == height,
        zb@ == filled(width as int, height as int, INFINITELY_FAR),
{
    let mut z_buffer: Box<ZBuffer> = Box::new(ZBuffer::new(width, height));
    z_buffer.initialize();
    z_buffer
}

} // verus!
