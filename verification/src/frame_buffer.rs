//! The frame buffer: a grid of colours with a row-origin convention.
//!
//! Row 0 of a buffer is the row at its origin: the top row of the screen for
//! a [`TopLeft`] buffer, the bottom row for a [`BottomLeft`] one. The tag is
//! part of the buffer's type, so buffers of different orientation are never
//! mixed up silently: comparing or converting them matches row `i` of one
//! with row `height - 1 - i` of the other.

use vstd::prelude::*;
use vstd::arithmetic::div_mod::lemma_fundamental_div_mod_converse;
use vstd::std_specs::cmp::PartialEqSpecImpl;
use std::marker::PhantomData;
use crate::color::Rgb;
use crate::grid::{filled, flipped, rows_view, shaped, with_cell};

verus! {

/// Marker for the corner of the screen at which a buffer's row 0 starts.
pub trait Origin {

}

/// Row 0 is the top row of the screen.
#[derive(Copy, Clone, Eq, PartialEq, Debug)]
pub enum TopLeft {
    Tag,
}

/// Row 0 is the bottom row of the screen.
#[derive(Copy, Clone, Eq, PartialEq, Debug)]
pub enum BottomLeft {
    Tag,
}

impl Origin for TopLeft {

}

impl Origin for BottomLeft {

}

/// A grid of `width` by `height` colours.
#[derive(Debug)]
pub struct FrameBuffer<Or: Origin> {
    width: usize,
    height: usize,
    buf: Vec<Vec<Rgb>>,
    _phantom: PhantomData<Or>,
}

/// The channel of `c` with index `channel`: 0 is red, 1 is green, any other
/// is blue.
pub open spec fn pixel_byte(c: Rgb, channel: int) -> u8 {
    if channel == 0 {
        c.red
    } else if channel == 1 {
        c.green
    } else {
        c.blue
    }
}

/// The serialized form of a grid of rows of `width` colours: row after row,
/// three bytes per pixel in the order red, green, blue.
pub open spec fn frame_bytes(g: Seq<Seq<Rgb>>, width: int) -> Seq<u8> {
    Seq::new(
        (3 * (width * g.len())) as nat,
        |k: int| pixel_byte(g[(k / 3) / width][(k / 3) % width], k % 3),
    )
}

/// The colour that the serialized bytes hold for the pixel at `(row, col)`.
pub open spec fn pixel_of_bytes(bytes: Seq<u8>, width: int, row: int, col: int) -> Rgb {
    Rgb {
        red: bytes[3 * (width * row + col)],
        green: bytes[3 * (width * row + col) + 1],
        blue: bytes[3 * (width * row + col) + 2],
    }
}

/// The position of the pixel at `(row, col)` lies inside the grid's pixel
/// count, and dividing it by the width gives the row and the column back.
pub proof fn lemma_pixel_position(width: int, height: int, row: int, col: int)
    requires
        0 <= row < height,
        0 <= col < width,
    ensures
        0 <= width * row + col < width * height,
        (width * row + col) / width == row,
        (width * row + col) % width == col,
{
    assert(0 <= width * row && width * row + width <= width * height) by (nonlinear_arith)
        requires
            0 <= row < height,
            0 < width,
    ;
    assert(width * row + col == row * width + col) by (nonlinear_arith);
    lemma_fundamental_div_mod_converse(width * row + col, width, row, col);
}

/// Reading the serialized bytes back in triples gives every pixel of the
/// grid exactly.
pub proof fn lemma_dump_round_trip(g: Seq<Seq<Rgb>>, width: int, row: int, col: int)
    requires
        shaped(g, width, g.len() as int),
        0 <= row < g.len(),
        0 <= col < width,
    ensures
        3 * (width * row + col) + 2 < frame_bytes(g, width).len(),
        pixel_of_bytes(frame_bytes(g, width), width, row, col) == g[row][col],
{
    lemma_pixel_position(width, g.len() as int, row, col);
}

impl<Or: Origin> View for FrameBuffer<Or> {
    type V = Seq<Seq<Rgb>>;

    /// The rows of the buffer, row 0 first.
    closed spec fn view(&self) -> Seq<Seq<Rgb>> {
        rows_view(self.buf@)
    }
}

impl<Or: Origin> FrameBuffer<Or> {
    #[verifier::type_invariant]
    spec fn well_formed(&self) -> bool {
        &&& self.buf@.len() == self.height
        &&& forall|i: int| 0 <= i < self.buf@.len() ==> (#[trigger] self.buf@[i]).len() == self.width
    }

    /// The number of pixels in a row.
    pub closed spec fn spec_width(&self) -> usize {
        self.width
    }

    /// The number of rows.
    pub closed spec fn spec_height(&self) -> usize {
        self.height
    }

    /// A buffer of the given size, every pixel black.
    pub fn new(width: usize, height: usize) -> (fb: FrameBuffer<Or>)
        ensures
            fb.spec_width() == width,
            fb.spec_height() == height,
            fb@ == filled(width as int, height as int, Rgb { red: 0, green: 0, blue: 0 }),
    {
        let black = Rgb::from_channels(0, 0, 0);
        let mut buf: Vec<Vec<Rgb>> = Vec::with_capacity(height);
        let mut i: usize = 0;
        while i < height
            invariant
                i <= height,
                buf@.len() == i,
                black == (Rgb { red: 0, green: 0, blue: 0 }),
                forall|k: int| 0 <= k < i ==> (#[trigger] buf@[k])@ == Seq::new(width as nat, |j: int| black),
            decreases height - i,
        {
            let mut row: Vec<Rgb> = Vec::with_capacity(width);
            let mut j: usize = 0;
            while j < width
                invariant
                    j <= width,
                    row@.len() == j,
                    forall|k: int| 0 <= k < j ==> row@[k] == black,
                decreases width - j,
            {
                row.push(black);
                j = j + 1;
            }
            assert(row@ =~= Seq::new(width as nat, |j: int| black));
            buf.push(row);
            i = i + 1;
        }
        let fb = FrameBuffer { width, height, buf, _phantom: PhantomData };
        assert(fb@ =~= filled(width as int, height as int, black));
        fb
    }

    /// Resets every pixel to black.
    pub fn initialize(&mut self)
        ensures
            final(self).spec_width() == old(self).spec_width(),
            final(self).spec_height() == old(self).spec_height(),
            final(self)@ == filled(
                old(self).spec_width() as int,
                old(self).spec_height() as int,
                Rgb { red: 0, green: 0, blue: 0 },
            ),
    {
        self.initialize_with(Rgb::from_channels(0, 0, 0));
    }

    /// Resets every pixel to the background colour `rgb`.
    pub fn initialize_with(&mut self, rgb: Rgb)
        ensures
            final(self).spec_width() == old(self).spec_width(),
            final(self).spec_height() == old(self).spec_height(),
            final(self)@ == filled(old(self).spec_width() as int, old(self).spec_height() as int, rgb),
    {
        proof {
            use_type_invariant(&*self);
        }
        let mut row: usize = 0;
        while row < self.height
            invariant
                row <= self.height,
                self.width == old(self).width,
                self.height == old(self).height,
                self.buf@.len() == self.height,
                forall|i: int| 0 <= i < self.buf@.len() ==> (#[trigger] self.buf@[i]).len() == self.width,
                forall|i: int| 0 <= i < row ==> (#[trigger] self.buf@[i])@ == Seq::new(self.width as nat, |j: int| rgb),
            decreases self.height - row,
        {
            let mut col: usize = 0;
            while col < self.width
                invariant
                    row < self.height,
                    col <= self.width,
                    self.width == old(self).width,
                    self.height == old(self).height,
                    self.buf@.len() == self.height,
                    forall|i: int| 0 <= i < self.buf@.len() ==> (#[trigger] self.buf@[i]).len() == self.width,
                    forall|i: int| 0 <= i < row ==> (#[trigger] self.buf@[i])@ == Seq::new(self.width as nat, |j: int| rgb),
                    forall|j: int| 0 <= j < col ==> self.buf@[row as int]@[j] == rgb,
                decreases self.width - col,
            {
                put_cell(&mut self.buf, row, col, rgb);
                col = col + 1;
            }
            assert(self.buf@[row as int]@ =~= Seq::new(self.width as nat, |j: int| rgb));
            row = row + 1;
        }
        assert(self@ =~= filled(self.width as int, self.height as int, rgb));
    }

    /// The number of pixels in a row.
    pub fn width(&self) -> (w: usize)
        ensures
            w == self.spec_width(),
            shaped(self@, w as int, self.spec_height() as int),
    {
        proof {
            use_type_invariant(self);
        }
        self.width
    }

    /// The number of rows.
    pub fn height(&self) -> (h: usize)
        ensures
            h == self.spec_height(),
            shaped(self@, self.spec_width() as int, h as int),
    {
        proof {
            use_type_invariant(self);
        }
        self.height
    }

    /// Width and height, in this order.
    pub fn shape(&self) -> (s: (usize, usize))
        ensures
            s == (self.spec_width(), self.spec_height()),
            shaped(self@, s.0 as int, s.1 as int),
    {
        proof {
            use_type_invariant(self);
        }
        (self.width, self.height)
    }

    /// The colour of the pixel in row `row` and column `col`.
    pub fn get_pixel(&self, row: usize, col: usize) -> (c: Rgb)
        requires
            row < self.spec_height(),
            col < self.spec_width(),
        ensures
            c == self@[row as int][col as int],
    {
        proof {
            use_type_invariant(self);
        }
        self.buf[row][col]
    }

    /// Writes `rgb` to the pixel in row `row` and column `col`.
    pub fn set_pixel(&mut self, row: usize, col: usize, rgb: Rgb)
        requires
            row < old(self).spec_height(),
            col < old(self).spec_width(),
        ensures
            final(self).spec_width() == old(self).spec_width(),
            final(self).spec_height() == old(self).spec_height(),
            final(self)@ == with_cell(old(self)@, row as int, col as int, rgb),
    {
        proof {
            use_type_invariant(&*self);
        }
        put_cell(&mut self.buf, row, col, rgb);
        assert(self@ =~= with_cell(old(self)@, row as int, col as int, rgb));
    }

    /// The pixels of row `index`.
    pub fn row(&self, index: usize) -> (r: &[Rgb])
        requires
            index < self.spec_height(),
        ensures
            r@ == self@[index as int],
    {
        proof {
            use_type_invariant(self);
        }
        self.buf[index].as_slice()
    }

    /// Serializes the buffer into `other_buf`: row after row starting with
    /// row 0, three bytes per pixel. Gives the number of bytes written, or
    /// nothing, with `other_buf` untouched, when `other_buf` holds fewer than
    /// `3 * width * height` bytes.
    pub fn dump_frame(&self, other_buf: &mut [u8]) -> (r: Option<usize>)
        ensures
            final(other_buf)@.len() == old(other_buf)@.len(),
            r.is_some() <==> old(other_buf)@.len() >= 3 * (self.spec_width() * self.spec_height()),
            r matches Some(n) ==> {
                &&& n == 3 * (self.spec_width() * self.spec_height())
                &&& final(other_buf)@.subrange(0, n as int) == frame_bytes(self@, self.spec_width() as int)
                &&& final(other_buf)@.subrange(n as int, old(other_buf)@.len() as int) == old(other_buf)@.subrange(
                    n as int,
                    old(other_buf)@.len() as int,
                )
            },
            r.is_none() ==> final(other_buf)@ == old(other_buf)@,
    {
        proof {
            use_type_invariant(self);
        }
        let capacity: usize = other_buf.len();
        let pixels: usize = match self.width.checked_mul(self.height) {
            Some(p) => p,
            None => {
                return None;
            },
        };
        let total: usize = match pixels.checked_mul(3) {
            Some(t) => t,
            None => {
                return None;
            },
        };
        if capacity < total {
            return None;
        }
        let ghost bytes = frame_bytes(self@, self.width as int);
        let mut k: usize = 0;
        let mut i: usize = 0;
        while i < self.height
            invariant
                i <= self.height,
                total == 3 * (self.width * self.height),
                total <= other_buf@.len(),
                other_buf@.len() == old(other_buf)@.len(),
                k == 3 * (self.width * i),
                self.buf@.len() == self.height,
                forall|r: int| 0 <= r < self.buf@.len() ==> (#[trigger] self.buf@[r]).len() == self.width,
                bytes == frame_bytes(self@, self.width as int),
                forall|p: int| 0 <= p < k ==> other_buf@[p] == bytes[p],
                forall|p: int| k <= p < other_buf@.len() ==> other_buf@[p] == old(other_buf)@[p],
            decreases self.height - i,
        {
            let mut j: usize = 0;
            while j < self.width
                invariant
                    i < self.height,
                    j <= self.width,
                    total == 3 * (self.width * self.height),
                    total <= other_buf@.len(),
                    other_buf@.len() == old(other_buf)@.len(),
                    k == 3 * (self.width * i + j),
                    self.buf@.len() == self.height,
                    forall|r: int| 0 <= r < self.buf@.len() ==> (#[trigger] self.buf@[r]).len() == self.width,
                    bytes == frame_bytes(self@, self.width as int),
                    forall|p: int| 0 <= p < k ==> other_buf@[p] == bytes[p],
                    forall|p: int| k <= p < other_buf@.len() ==> other_buf@[p] == old(other_buf)@[p],
                decreases self.width - j,
            {
                proof {
                    lemma_pixel_position(self.width as int, self.height as int, i as int, j as int);
                    assert(self@[i as int][j as int] == self.buf@[i as int]@[j as int]);
                }
                let pixel: Rgb = self.buf[i][j];
                other_buf[k] = pixel.r();
                other_buf[k + 1] = pixel.g();
                other_buf[k + 2] = pixel.b();
                k = k + 3;
                j = j + 1;
            }
            proof {
                assert(self.width * i + self.width == self.width * (i + 1)) by (nonlinear_arith);
            }
            i = i + 1;
        }
        assert(other_buf@.subrange(0, total as int) =~= bytes);
        assert(other_buf@.subrange(total as int, old(other_buf)@.len() as int) =~= old(other_buf)@.subrange(
            total as int,
            old(other_buf)@.len() as int,
        ));
        Some(total)
    }

    /// An iterator over the rows, row 0 first.
    pub fn lines(&self) -> (it: RowIter<'_, Or>)
        ensures
            it.position() == 0,
            it.rows() == self@,
    {
        RowIter { index: 0, rows: self.buf.as_slice(), _phantom: PhantomData }
    }

    /// Whether both buffers have the same size and the same colour in every
    /// pixel, row `i` of one at row `i` of the other.
    pub open spec fn same_as(&self, other: &FrameBuffer<Or>) -> bool {
        &&& self.spec_width() == other.spec_width()
        &&& self.spec_height() == other.spec_height()
        &&& self@ == other@
    }

    fn rows_match(&self, other_rows: &Vec<Vec<Rgb>>, reversed: bool) -> (r: bool)
        requires
            other_rows@.len() == self.spec_height(),
            forall|i: int| 0 <= i < other_rows@.len() ==> (#[trigger] other_rows@[i]).len() == self.spec_width(),
        ensures
            r == (self@ == if reversed {
                flipped(rows_view(other_rows@))
            } else {
                rows_view(other_rows@)
            }),
    {
        proof {
            use_type_invariant(self);
        }
        let ghost target = if reversed {
            flipped(rows_view(other_rows@))
        } else {
            rows_view(other_rows@)
        };
        let mut i: usize = 0;
        while i < self.height
            invariant
                i <= self.height,
                self.buf@.len() == self.height,
                other_rows@.len() == self.height,
                forall|k: int| 0 <= k < self.buf@.len() ==> (#[trigger] self.buf@[k]).len() == self.width,
                forall|k: int| 0 <= k < other_rows@.len() ==> (#[trigger] other_rows@[k]).len() == self.width,
                target == if reversed {
                    flipped(rows_view(other_rows@))
                } else {
                    rows_view(other_rows@)
                },
                forall|k: int| 0 <= k < i ==> (#[trigger] self@[k]) == target[k],
            decreases self.height - i,
        {
            let o: usize = if reversed {
                self.height - 1 - i
            } else {
                i
            };
            let mut j: usize = 0;
            while j < self.width
                invariant
                    i < self.height,
                    o < self.height,
                    j <= self.width,
                    self.buf@.len() == self.height,
                    other_rows@.len() == self.height,
                    self.buf@[i as int].len() == self.width,
                    other_rows@[o as int].len() == self.width,
                    target == if reversed {
                        flipped(rows_view(other_rows@))
                    } else {
                        rows_view(other_rows@)
                    },
                    o == if reversed {
                        self.height - 1 - i
                    } else {
                        i as int
                    },
                    forall|k: int| 0 <= k < j ==> self.buf@[i as int]@[k] == other_rows@[o as int]@[k],
                decreases self.width - j,
            {
                if self.buf[i][j] != other_rows[o][j] {
                    assert(self@[i as int][j as int] != target[i as int][j as int]);
                    return false;
                }
                j = j + 1;
            }
            assert(self@[i as int] =~= target[i as int]);
            i = i + 1;
        }
        assert(self@ =~= target);
        true
    }
}

impl<Or: Origin> PartialEqSpecImpl for FrameBuffer<Or> {
    open spec fn obeys_eq_spec() -> bool {
        true
    }

    open spec fn eq_spec(&self, other: &FrameBuffer<Or>) -> bool {
        self.same_as(other)
    }
}

impl<Or: Origin> PartialEq for FrameBuffer<Or> {
    fn eq(&self, other: &FrameBuffer<Or>) -> (r: bool) {
        proof {
            use_type_invariant(self);
            use_type_invariant(other);
        }
        if self.width != other.width || self.height != other.height {
            return false;
        }
        self.rows_match(&other.buf, false)
    }
}

impl FrameBuffer<TopLeft> {
    /// Whether both buffers show the same picture: the same size, and the
    /// top row of one equal to the top row of the other, and so on down.
    pub open spec fn same_picture(&self, other: &FrameBuffer<BottomLeft>) -> bool {
        &&& self.spec_width() == other.spec_width()
        &&& self.spec_height() == other.spec_height()
        &&& self@ == flipped(other@)
    }

    /// The same picture in a buffer whose row 0 is the bottom row.
    pub fn to_bottom_left(&self) -> (fb: FrameBuffer<BottomLeft>)
        ensures
            fb.spec_width() == self.spec_width(),
            fb.spec_height() == self.spec_height(),
            fb@ == flipped(self@),
    {
        proof {
            use_type_invariant(self);
        }
        let buf = reversed_rows(&self.buf, self.width);
        let fb = FrameBuffer { width: self.width, height: self.height, buf, _phantom: PhantomData };
        assert(fb@ =~= flipped(self@));
        fb
    }
}

impl FrameBuffer<BottomLeft> {
    /// Whether both buffers show the same picture: the same size, and the
    /// top row of one equal to the top row of the other, and so on down.
    pub open spec fn same_picture(&self, other: &FrameBuffer<TopLeft>) -> bool {
        &&& self.spec_width() == other.spec_width()
        &&& self.spec_height() == other.spec_height()
        &&& self@ == flipped(other@)
    }

    /// The same picture in a buffer whose row 0 is the top row.
    pub fn to_top_left(&self) -> (fb: FrameBuffer<TopLeft>)
        ensures
            fb.spec_width() == self.spec_width(),
            fb.spec_height() == self.spec_height(),
            fb@ == flipped(self@),
    {
        proof {
            use_type_invariant(self);
        }
        let buf = reversed_rows(&self.buf, self.width);
        let fb = FrameBuffer { width: self.width, height: self.height, buf, _phantom: PhantomData };
        assert(fb@ =~= flipped(self@));
        fb
    }
}

fn put_cell(rows: &mut Vec<Vec<Rgb>>, row: usize, col: usize, rgb: Rgb)
    requires
        row < old(rows)@.len(),
        col < old(rows)@[row as int].len(),
    ensures
        final(rows)@.len() == old(rows)@.len(),
        final(rows)@[row as int]@ == old(rows)@[row as int]@.update(col as int, rgb),
        forall|k: int| 0 <= k < old(rows)@.len() && k != row ==> final(rows)@[k] == old(rows)@[k],
    no_unwind
{
    rows[row][col] = rgb;
}

fn reversed_rows(rows: &Vec<Vec<Rgb>>, width: usize) -> (out: Vec<Vec<Rgb>>)
    requires
        forall|i: int| 0 <= i < rows@.len() ==> (#[trigger] rows@[i]).len() == width,
    ensures
        out@.len() == rows@.len(),
        forall|i: int| 0 <= i < out@.len() ==> (#[trigger] out@[i])@ == rows@[rows@.len() - 1 - i]@,
{
    let n: usize = rows.len();
    let mut out: Vec<Vec<Rgb>> = Vec::with_capacity(n);
    let mut i: usize = 0;
    while i < n
        invariant
            i <= n,
            n == rows@.len(),
            out@.len() == i,
            forall|k: int| 0 <= k < rows@.len() ==> (#[trigger] rows@[k]).len() == width,
            forall|k: int| 0 <= k < i ==> (#[trigger] out@[k])@ == rows@[n - 1 - k]@,
        decreases n - i,
    {
        let src: usize = n - 1 - i;
        let mut row: Vec<Rgb> = Vec::with_capacity(width);
        let mut j: usize = 0;
        while j < width
            invariant
                j <= width,
                src < rows@.len(),
                rows@[src as int].len() == width,
                row@.len() == j,
                forall|k: int| 0 <= k < j ==> row@[k] == rows@[src as int]@[k],
            decreases width - j,
        {
            row.push(rows[src][j]);
            j = j + 1;
        }
        assert(row@ =~= rows@[src as int]@);
        out.push(row);
        i = i + 1;
    }
    out
}

impl PartialEqSpecImpl<FrameBuffer<TopLeft>> for FrameBuffer<BottomLeft> {
    open spec fn obeys_eq_spec() -> bool {
        true
    }

    open spec fn eq_spec(&self, other: &FrameBuffer<TopLeft>) -> bool {
        self.same_picture(other)
    }
}

impl PartialEq<FrameBuffer<TopLeft>> for FrameBuffer<BottomLeft> {
    fn eq(&self, other: &FrameBuffer<TopLeft>) -> (r: bool) {
        proof {
            use_type_invariant(self);
            use_type_invariant(other);
        }
        if self.width != other.width || self.height != other.height {
            return false;
        }
        self.rows_match(&other.buf, true)
    }
}

impl PartialEqSpecImpl<FrameBuffer<BottomLeft>> for FrameBuffer<TopLeft> {
    open spec fn obeys_eq_spec() -> bool {
        true
    }

    open spec fn eq_spec(&self, other: &FrameBuffer<BottomLeft>) -> bool {
        self.same_picture(other)
    }
}

impl PartialEq<FrameBuffer<BottomLeft>> for FrameBuffer<TopLeft> {
    fn eq(&self, other: &FrameBuffer<BottomLeft>) -> (r: bool) {
        proof {
            use_type_invariant(self);
            use_type_invariant(other);
        }
        if self.width != other.width || self.height != other.height {
            return false;
        }
        self.rows_match(&other.buf, true)
    }
}

/// A walk over the rows of a frame buffer.
pub struct RowIter<'a, Or: Origin> {
    index: usize,
    rows: &'a [Vec<Rgb>],
    _phantom: PhantomData<Or>,
}

impl<'a, Or: Origin> RowIter<'a, Or> {
    /// The number of rows handed out so far.
    pub closed spec fn position(&self) -> int {
        self.index as int
    }

    /// The rows of the buffer that is walked over.
    pub closed spec fn rows(&self) -> Seq<Seq<Rgb>> {
        rows_view(self.rows@)
    }

    /// The next row, or nothing when every row was handed out.
    pub fn next(&mut self) -> (r: Option<&'a [Rgb]>)
        ensures
            final(self).rows() == old(self).rows(),
            old(self).position() < old(self).rows().len() ==> {
                &&& r matches Some(row)
                &&& row@ == old(self).rows()[old(self).position()]
                &&& final(self).position() == old(self).position() + 1
            },
            old(self).position() >= old(self).rows().len() ==> {
                &&& r.is_none()
                &&& final(self).position() == old(self).position()
            },
    {
        if self.index < self.rows.len() {
            let row: &'a [Rgb] = self.rows[self.index].as_slice();
            self.index = self.index + 1;
            Some(row)
        } else {
            None
        }
    }
}

/// A new frame buffer of the given size whose row 0 is the top row, every
/// pixel black.
pub fn frame_buffer(width: usize, height: usize) -> (fb: Box<FrameBuffer<TopLeft>>)
    ensures
        fb.spec_width() == width,
        fb.spec_height() == height,
        fb@ == filled(width as int, height as int, Rgb { red: 0, green: 0, blue: 0 }),
{
    let mut frame_buffer: Box<FrameBuffer<TopLeft>> = Box::new(FrameBuffer::new(width, height));
    frame_buffer.initialize();
    frame_buffer
}

/// A buffer of `size` zero bytes, to dump a frame into.
pub fn make_buffer(size: usize) -> (buf: Box<Vec<u8>>)
    ensures
        buf@ == Seq::new(size as nat, |i: int| 0u8),
{
    let mut buf: Vec<u8> = Vec::with_capacity(size);
    let mut i: usize = 0;
    while i < size
        invariant
            i <= size,
            buf@.len() == i,
            forall|k: int| 0 <= k < i ==> buf@[k] == 0u8,
        decreases size - i,
    {
        buf.push(0x00);
        i = i + 1;
    }
    assert(buf@ =~= Seq::new(size as nat, |i: int| 0u8));
    Box::new(buf)
}

} // verus!
