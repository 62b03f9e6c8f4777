//! Encoding of images in the plain Netpbm formats.
//!
//! The encoder turns a flat array of samples into the bytes of a Netpbm
//! file: the magic number, the header with width, height and the largest
//! sample value, and the samples as decimal numbers, one line of text per
//! row of the image. Writing the bytes to a file is left to the caller.

use vstd::prelude::*;
use crate::frame_buffer::lemma_pixel_position;

verus! {

/// The Netpbm formats.
#[derive(Copy, Clone, Eq, PartialEq, Structural, Hash, Debug)]
pub enum NetPBM {
    BitMapAscii,
    GrayMapAscii,
    PixMapAscii,
    BitMapBinary,
    GrayMapBinary,
    PixMapBinary,
}

impl NetPBM {
    /// The digit of the format's magic number, as a character.
    pub open spec fn magic_digit(self) -> char {
        match self {
            NetPBM::BitMapAscii => '1',
            NetPBM::GrayMapAscii => '2',
            NetPBM::PixMapAscii => '3',
            NetPBM::BitMapBinary => '4',
            NetPBM::GrayMapBinary => '5',
            NetPBM::PixMapBinary => '6',
        }
    }

    /// The second letter of the format's file extension.
    pub open spec fn extension_letter(self) -> char {
        match self {
            NetPBM::BitMapAscii | NetPBM::BitMapBinary => 'b',
            NetPBM::GrayMapAscii | NetPBM::GrayMapBinary => 'g',
            NetPBM::PixMapAscii | NetPBM::PixMapBinary => 'p',
        }
    }

    /// The kind of sample of the format.
    pub open spec fn color_type(self) -> ColorType {
        match self {
            NetPBM::BitMapAscii | NetPBM::BitMapBinary => ColorType::BitMap,
            NetPBM::GrayMapAscii | NetPBM::GrayMapBinary => ColorType::Gray,
            NetPBM::PixMapAscii | NetPBM::PixMapBinary => ColorType::Rgb,
        }
    }

    /// The magic number that starts a file of the format: `P` and a digit
    /// from 1 to 6.
    pub fn magic_number(&self) -> (s: &'static str)
        ensures
            s@ == seq!['P', self.magic_digit()],
    {
        proof {
            reveal_strlit("P1");
            reveal_strlit("P2");
            reveal_strlit("P3");
            reveal_strlit("P4");
            reveal_strlit("P5");
            reveal_strlit("P6");
        }
        let s = match *self {
            NetPBM::BitMapAscii => "P1",
            NetPBM::GrayMapAscii => "P2",
            NetPBM::PixMapAscii => "P3",
            NetPBM::BitMapBinary => "P4",
            NetPBM::GrayMapBinary => "P5",
            NetPBM::PixMapBinary => "P6",
        };
        assert(s@ =~= seq!['P', self.magic_digit()]);
        s
    }

    /// The extension of the name of a file of the format.
    pub fn file_extension(&self) -> (s: &'static str)
        ensures
            s@ == seq!['p', self.extension_letter(), 'm'],
    {
        proof {
            reveal_strlit("pbm");
            reveal_strlit("pgm");
            reveal_strlit("ppm");
        }
        let s = match *self {
            NetPBM::BitMapAscii | NetPBM::BitMapBinary => "pbm",
            NetPBM::GrayMapAscii | NetPBM::GrayMapBinary => "pgm",
            NetPBM::PixMapAscii | NetPBM::PixMapBinary => "ppm",
        };
        assert(s@ =~= seq!['p', self.extension_letter(), 'm']);
        s
    }

    fn sample_kind(&self) -> (c: ColorType)
        ensures
            c == self.color_type(),
    {
        match *self {
            NetPBM::BitMapAscii | NetPBM::BitMapBinary => ColorType::BitMap,
            NetPBM::GrayMapAscii | NetPBM::GrayMapBinary => ColorType::Gray,
            NetPBM::PixMapAscii | NetPBM::PixMapBinary => ColorType::Rgb,
        }
    }
}

/// The kinds of sample. Only a colour depth of eight bits is supported.
#[derive(Copy, Clone, Eq, PartialEq, Structural, Hash, Debug)]
pub enum ColorType {
    BitMap,
    Gray,
    Rgb,
}

impl ColorType {
    /// The largest value of a sample.
    pub open spec fn max_value(self) -> nat {
        match self {
            ColorType::BitMap => 1,
            ColorType::Gray | ColorType::Rgb => 255,
        }
    }

    /// The number of bytes of the image that make up one pixel.
    pub open spec fn samples(self) -> nat {
        match self {
            ColorType::BitMap | ColorType::Gray => 1,
            ColorType::Rgb => 3,
        }
    }

    /// The largest value of a sample.
    pub fn max_pixel_value(&self) -> (v: usize)
        ensures
            v == self.max_value(),
    {
        match *self {
            ColorType::BitMap => 1,
            ColorType::Gray | ColorType::Rgb => 255,
        }
    }

    /// The number of bytes of the image that make up one pixel.
    pub fn samples_per_pixel(&self) -> (n: usize)
        ensures
            n == self.samples(),
    {
        match *self {
            ColorType::BitMap | ColorType::Gray => 1,
            ColorType::Rgb => 3,
        }
    }
}

/// Why an image cannot be encoded.
#[derive(Copy, Clone, Eq, PartialEq, Structural, Hash, Debug)]
pub enum EncodeError {
    /// The image has no bytes.
    EmptyImage,
    /// The image does not have as many bytes as its width, its height and
    /// its kind of sample ask for.
    SizeMismatch,
}

/// The decimal digits of `n` in ASCII, without leading zeros.
pub open spec fn decimal(n: nat) -> Seq<u8>
    decreases n,
{
    if n < 10 {
        seq![(48 + n) as u8]
    } else {
        decimal(n / 10).push((48 + n % 10) as u8)
    }
}

/// The text of the pixel with the given index: for a bitmap `0` or `1`, for
/// a gray map the sample, for a pixel map its three samples, each followed
/// by a space.
pub open spec fn pixel_text(image: Seq<u8>, kind: ColorType, index: int) -> Seq<u8> {
    match kind {
        ColorType::BitMap => if image[index] == 0 {
            seq![48u8, 32u8]
        } else {
            seq![49u8, 32u8]
        },
        ColorType::Gray => decimal(image[index] as nat).push(32u8),
        ColorType::Rgb => decimal(image[3 * index] as nat).push(32u8) + decimal(image[3 * index + 1] as nat).push(
            32u8,
        ) + decimal(image[3 * index + 2] as nat).push(32u8),
    }
}

/// The text of the first `cols` pixels of row `row` of an image of the
/// given width.
pub open spec fn row_text(image: Seq<u8>, kind: ColorType, width: int, row: int, cols: nat) -> Seq<u8>
    decreases cols,
{
    if cols == 0 {
        Seq::<u8>::empty()
    } else {
        row_text(image, kind, width, row, (cols - 1) as nat) + pixel_text(image, kind, width * row + (cols - 1))
    }
}

/// The text of the first `rows` rows of an image of the given width: every
/// row ends with a line feed.
pub open spec fn rows_text(image: Seq<u8>, kind: ColorType, width: int, rows: nat) -> Seq<u8>
    decreases rows,
{
    if rows == 0 {
        Seq::<u8>::empty()
    } else {
        rows_text(image, kind, width, (rows - 1) as nat) + row_text(image, kind, width, rows - 1, width as nat).push(
            10u8,
        )
    }
}

/// The magic number of a format as a line of text.
pub open spec fn magic_line(format: NetPBM) -> Seq<u8> {
    seq![80u8, format.magic_digit() as u8, 10u8]
}

/// The header of an image: width and height on one line, the largest
/// sample value on the next.
pub open spec fn header_text(width: nat, height: nat, kind: ColorType) -> Seq<u8> {
    decimal(width).push(32u8) + decimal(height).push(10u8) + decimal(kind.max_value()).push(10u8)
}

/// The bytes of the file of an image.
pub open spec fn encoded(format: NetPBM, image: Seq<u8>, width: nat, height: nat) -> Seq<u8> {
    magic_line(format) + header_text(width, height, format.color_type()) + rows_text(
        image,
        format.color_type(),
        width as int,
        height,
    )
}

/// What is wrong with an image of `len` bytes for the given size and kind
/// of sample, if anything.
pub open spec fn image_error(len: nat, width: nat, height: nat, kind: ColorType) -> Option<EncodeError> {
    if len == 0 {
        Some(EncodeError::EmptyImage)
    } else if len != kind.samples() * (width * height) {
        Some(EncodeError::SizeMismatch)
    } else {
        None
    }
}

/// Appends the decimal digits of `n` to `out`.
pub fn push_decimal(out: &mut Vec<u8>, n: u64)
    ensures
        final(out)@ == old(out)@ + decimal(n as nat),
    decreases n,
{
    if n >= 10 {
        push_decimal(out, n / 10);
    }
    out.push(48 + (n % 10) as u8);
    assert(out@ =~= old(out)@ + decimal(n as nat));
}

/// An encoder of images in one of the Netpbm formats. It collects the
/// bytes of what it has encoded.
#[derive(Debug)]
pub struct NetPBMEncoder {
    enc_type: NetPBM,
    writer: Vec<u8>,
}

impl NetPBMEncoder {
    /// The format of the encoder.
    pub closed spec fn format(&self) -> NetPBM {
        self.enc_type
    }

    /// The bytes encoded so far.
    pub closed spec fn written(&self) -> Seq<u8> {
        self.writer@
    }

    /// An encoder that appends to the bytes in `writer`.
    pub fn new(enc_type: NetPBM, writer: Vec<u8>) -> (e: NetPBMEncoder)
        ensures
            e.format() == enc_type,
            e.written() == writer@,
    {
        NetPBMEncoder { enc_type, writer }
    }

    /// The bytes encoded so far.
    pub fn bytes(&self) -> (b: &[u8])
        ensures
            b@ == self.written(),
    {
        self.writer.as_slice()
    }

    /// Ends the encoder and hands out its bytes.
    pub fn into_bytes(self) -> (b: Vec<u8>)
        ensures
            b@ == self.written(),
    {
        self.writer
    }

    /// Encodes an image of `width` by `height` pixels: the magic number,
    /// the header and the samples. Nothing is written when the image is
    /// empty or its size does not match.
    pub fn encode(&mut self, image: &[u8], width: u32, height: u32) -> (r: Result<(), EncodeError>)
        ensures
            final(self).format() == old(self).format(),
            r.is_ok() <==> image_error(image@.len(), width as nat, height as nat, old(self).format().color_type())
                is None,
            r matches Err(e) ==> final(self).written() == old(self).written() && image_error(
                image@.len(),
                width as nat,
                height as nat,
                old(self).format().color_type(),
            ) == Some(e),
            r.is_ok() ==> final(self).written() == old(self).written() + encoded(
                old(self).format(),
                image@,
                width as nat,
                height as nat,
            ),
    {
        // Calculate pixel color type.
        let pixel_type = self.enc_type.sample_kind();
        self.__encode(image, width, height, pixel_type)
    }

    fn __encode(&mut self, image: &[u8], width: u32, height: u32, pixel_type: ColorType) -> (r: Result<
        (),
        EncodeError,
    >)
        requires
            pixel_type == old(self).format().color_type(),
        ensures
            final(self).format() == old(self).format(),
            r.is_ok() <==> image_error(image@.len(), width as nat, height as nat, pixel_type) is None,
            r matches Err(e) ==> final(self).written() == old(self).written() && image_error(
                image@.len(),
                width as nat,
                height as nat,
                pixel_type,
            ) == Some(e),
            r.is_ok() ==> final(self).written() == old(self).written() + encoded(
                old(self).format(),
                image@,
                width as nat,
                height as nat,
            ),
    {
        if image.len() == 0 {
            return Err(EncodeError::EmptyImage);
        }
        assert(width * height <= 0xffff_fffe_0000_0001) by (nonlinear_arith)
            requires
                0 <= width <= 0xffff_ffff,
                0 <= height <= 0xffff_ffff,
        ;
        let pixels: u64 = (width as u64) * (height as u64);
        let needed: u128 = (pixel_type.samples_per_pixel() as u128) * (pixels as u128);
        if needed != image.len() as u128 {
            return Err(EncodeError::SizeMismatch);
        }
        self.write_magic_number();
        self.write_header(width, height, pixel_type);
        self.write_image(image, width, height, pixel_type);
        assert(self.written() =~= old(self).written() + encoded(
            old(self).format(),
            image@,
            width as nat,
            height as nat,
        ));
        Ok(())
    }

    fn write_magic_number(&mut self)
        ensures
            final(self).format() == old(self).format(),
            final(self).written() == old(self).written() + magic_line(old(self).format()),
    {
        let digit: u8 = match self.enc_type {
            NetPBM::BitMapAscii => 49,
            NetPBM::GrayMapAscii => 50,
            NetPBM::PixMapAscii => 51,
            NetPBM::BitMapBinary => 52,
            NetPBM::GrayMapBinary => 53,
            NetPBM::PixMapBinary => 54,
        };
        self.writer.push(80);
        self.writer.push(digit);
        self.writer.push(10);
        assert(self.written() =~= old(self).written() + magic_line(old(self).format()));
    }

    fn write_header(&mut self, width: u32, height: u32, pixel_type: ColorType)
        ensures
            final(self).format() == old(self).format(),
            final(self).written() == old(self).written() + header_text(width as nat, height as nat, pixel_type),
    {
        let max_val = pixel_type.max_pixel_value();
        push_decimal(&mut self.writer, width as u64);
        self.writer.push(32);
        push_decimal(&mut self.writer, height as u64);
        self.writer.push(10);
        push_decimal(&mut self.writer, max_val as u64);
        self.writer.push(10);
        assert(self.written() =~= old(self).written() + header_text(width as nat, height as nat, pixel_type));
    }

    fn write_pixel(&mut self, image: &[u8], pixel_type: ColorType, index: usize)
        requires
            pixel_type.samples() * index + pixel_type.samples() <= image@.len(),
        ensures
            final(self).format() == old(self).format(),
            final(self).written() == old(self).written() + pixel_text(image@, pixel_type, index as int),
    {
        let len: usize = image.len();
        match pixel_type {
            ColorType::BitMap => {
                if image[index] == 0 {
                    self.writer.push(48);
                } else {
                    self.writer.push(49);
                }
                self.writer.push(32);
            },
            ColorType::Gray => {
                push_decimal(&mut self.writer, image[index] as u64);
                self.writer.push(32);
            },
            ColorType::Rgb => {
                push_decimal(&mut self.writer, image[3 * index] as u64);
                self.writer.push(32);
                push_decimal(&mut self.writer, image[3 * index + 1] as u64);
                self.writer.push(32);
                push_decimal(&mut self.writer, image[3 * index + 2] as u64);
                self.writer.push(32);
            },
        }
        assert(self.written() =~= old(self).written() + pixel_text(image@, pixel_type, index as int));
    }

    fn write_image(&mut self, image: &[u8], width: u32, height: u32, pixel_type: ColorType)
        requires
            image@.len() == pixel_type.samples() * (width * height),
        ensures
            final(self).format() == old(self).format(),
            final(self).written() == old(self).written() + rows_text(
                image@,
                pixel_type,
                width as int,
                height as nat,
            ),
    {
        let width: usize = width as usize;
        let height: usize = height as usize;
        let len: usize = image.len();
        let mut i: usize = 0;
        while i < height
            invariant
                i <= height,
                len == image@.len(),
                image@.len() == pixel_type.samples() * (width * height),
                self.format() == old(self).format(),
                self.written() == old(self).written() + rows_text(image@, pixel_type, width as int, i as nat),
            decreases height - i,
        {
            let ghost before = self.written();
            let mut j: usize = 0;
            while j < width
                invariant
                    i < height,
                    j <= width,
                    len == image@.len(),
                    image@.len() == pixel_type.samples() * (width * height),
                    self.format() == old(self).format(),
                    self.written() == before + row_text(image@, pixel_type, width as int, i as int, j as nat),
                decreases width - j,
            {
                proof {
                    lemma_pixel_position(width as int, height as int, i as int, j as int);
                    assert(pixel_type.samples() * (width * i + j) + pixel_type.samples() <= pixel_type.samples() * (
                    width * height)) by (nonlinear_arith)
                        requires
                            width * i + j < width * height,
                            1 <= pixel_type.samples() <= 3,
                    ;
                }
                let ghost row_before = self.written();
                self.write_pixel(image, pixel_type, width * i + j);
                assert(self.written() =~= before + row_text(
                    image@,
                    pixel_type,
                    width as int,
                    i as int,
                    (j + 1) as nat,
                ));
                j = j + 1;
            }
            self.writer.push(10);
            assert(self.written() =~= old(self).written() + rows_text(
                image@,
                pixel_type,
                width as int,
                (i + 1) as nat,
            ));
            i = i + 1;
        }
    }
}

} // verus!
