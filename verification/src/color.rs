//! Three-channel, eight-bit colours.

use vstd::prelude::*;
use vstd::std_specs::convert::FromSpecImpl;
use crate::fixed::ONE;
use crate::geometry::{Point3, Vector3};

verus! {

/// A colour of three bytes: red, green and blue.
#[derive(Copy, Clone, Eq, PartialEq, Structural, Hash, Debug)]
pub struct Rgb {
    pub red: u8,
    pub green: u8,
    pub blue: u8,
}

impl View for Rgb {
    type V = (u8, u8, u8);

    open spec fn view(&self) -> (u8, u8, u8) {
        (self.red, self.green, self.blue)
    }
}

/// The byte that a fixed-point colour component becomes: the component is
/// scaled by 255 and its fraction is cut off; components below zero give 0
/// and components of one or more give 255.
pub open spec fn channel_spec(c: int) -> int {
    if c < 0 {
        0
    } else if c >= ONE {
        255
    } else {
        (255 * c) / (ONE as int)
    }
}

/// The colour that three fixed-point components become.
pub open spec fn rgb_spec(x: int, y: int, z: int) -> Rgb {
    Rgb { red: channel_spec(x) as u8, green: channel_spec(y) as u8, blue: channel_spec(z) as u8 }
}

/// The character of a hexadecimal digit, in upper case.
pub open spec fn hex_char(digit: int) -> char {
    if digit < 10 {
        (48 + digit) as u8 as char
    } else {
        (55 + digit) as u8 as char
    }
}

/// The hexadecimal digits of a byte in upper case, without a leading zero.
pub open spec fn hex_digits(v: u8) -> Seq<char> {
    if v < 16 {
        seq![hex_char(v as int)]
    } else {
        seq![hex_char(v as int / 16), hex_char(v as int % 16)]
    }
}

/// Formats three bytes with `format!("0x{:X}{:X}{:X}", ..)`: the text `0x`
/// and then each byte in upper-case hexadecimal digits without padding, as
/// the standard library documents for `{:X}`.
#[verifier::external_body]
fn hex_text(r: u8, g: u8, b: u8) -> (s: String)
    ensures
        s@ == seq!['0', 'x'] + hex_digits(r) + hex_digits(g) + hex_digits(b),
{
    format!("0x{:X}{:X}{:X}", r, g, b)
}

fn channel(c: i32) -> (r: u8)
    ensures
        r == channel_spec(c as int),
{
    if c < 0 {
        0
    } else if c >= ONE {
        255
    } else {
        let scaled: i64 = 255 * (c as i64);
        (scaled / (ONE as i64)) as u8
    }
}

impl Rgb {
    /// The channels in the order red, green, blue.
    pub open spec fn spec_channels(&self) -> [u8; 3] {
        [self.red, self.green, self.blue]
    }

    /// The colour with the given channels.
    pub fn from_channels(r: u8, g: u8, b: u8) -> (c: Rgb)
        ensures
            c@ == (r, g, b),
    {
        Rgb { red: r, green: g, blue: b }
    }

    /// The red channel.
    pub fn r(&self) -> (v: u8)
        ensures
            v == self@.0,
    {
        self.red
    }

    /// The green channel.
    pub fn g(&self) -> (v: u8)
        ensures
            v == self@.1,
    {
        self.green
    }

    /// The blue channel.
    pub fn b(&self) -> (v: u8)
        ensures
            v == self@.2,
    {
        self.blue
    }

    /// The number of channels. Each one is a byte in size.
    pub fn channel_count() -> (n: usize)
        ensures
            n == 3,
    {
        3
    }

    /// The channels in the order red, green, blue.
    #[verifier::when_used_as_spec(spec_channels)]
    pub fn channels(&self) -> (s: [u8; 3])
        ensures
            s == self.spec_channels(),
            s@ == seq![self@.0, self@.1, self@.2],
    {
        [self.red, self.green, self.blue]
    }

    /// The channel with the given index: 0 is red, 1 is green, 2 is blue.
    pub fn channel(&self, index: usize) -> (v: u8)
        requires
            index < 3,
        ensures
            v == self.channels()@[index as int],
    {
        if index == 0 {
            self.red
        } else if index == 1 {
            self.green
        } else {
            self.blue
        }
    }

    /// Replaces the channel with the given index.
    pub fn set_channel(&mut self, index: usize, value: u8)
        requires
            index < 3,
        ensures
            final(self).channels()@ == old(self).channels()@.update(index as int, value),
    {
        if index == 0 {
            self.red = value;
        } else if index == 1 {
            self.green = value;
        } else {
            self.blue = value;
        }
    }

    /// The colour as text: `0x` and the three channels in hexadecimal
    /// digits, none of them padded.
    pub fn to_hex_string(&self) -> (s: String)
        ensures
            s@ == seq!['0', 'x'] + hex_digits(self.red) + hex_digits(self.green) + hex_digits(self.blue),
    {
        hex_text(self.red, self.green, self.blue)
    }

}

impl Default for Rgb {
    /// Black.
    fn default() -> (c: Rgb)
        ensures
            c@ == (0u8, 0u8, 0u8),
    {
        Rgb::from_channels(0x00, 0x00, 0x00)
    }
}

impl FromSpecImpl<[u8; 3]> for Rgb {
    open spec fn obeys_from_spec() -> bool {
        true
    }

    open spec fn from_spec(arr: [u8; 3]) -> Rgb {
        Rgb { red: arr[0], green: arr[1], blue: arr[2] }
    }
}

impl From<[u8; 3]> for Rgb {
    fn from(arr: [u8; 3]) -> (c: Rgb) {
        Rgb { red: arr[0], green: arr[1], blue: arr[2] }
    }
}

impl<'a> FromSpecImpl<&'a [u8; 3]> for Rgb {
    open spec fn obeys_from_spec() -> bool {
        true
    }

    open spec fn from_spec(arr: &'a [u8; 3]) -> Rgb {
        Rgb { red: arr[0], green: arr[1], blue: arr[2] }
    }
}

impl<'a> From<&'a [u8; 3]> for Rgb {
    fn from(arr: &'a [u8; 3]) -> (c: Rgb) {
        Rgb { red: arr[0], green: arr[1], blue: arr[2] }
    }
}

impl FromSpecImpl<(u8, u8, u8)> for Rgb {
    open spec fn obeys_from_spec() -> bool {
        true
    }

    open spec fn from_spec(tuple: (u8, u8, u8)) -> Rgb {
        Rgb { red: tuple.0, green: tuple.1, blue: tuple.2 }
    }
}

impl From<(u8, u8, u8)> for Rgb {
    fn from(tuple: (u8, u8, u8)) -> (c: Rgb) {
        Rgb { red: tuple.0, green: tuple.1, blue: tuple.2 }
    }
}

/// Conversion of a colour value of type `V` into a channel representation.
pub trait RgbCast<V> {
    type RgbValue;

    /// The colour that `color` becomes.
    spec fn cast_spec(color: V) -> Self::RgbValue;

    fn rgb_cast(color: V) -> (c: Self::RgbValue)
        ensures
            c == Self::cast_spec(color),
    ;
}

impl RgbCast<Vector3> for Rgb {
    type RgbValue = Rgb;

    open spec fn cast_spec(color: Vector3) -> Rgb {
        rgb_spec(color.x as int, color.y as int, color.z as int)
    }

    fn rgb_cast(color: Vector3) -> (c: Rgb) {
        Rgb::from_channels(channel(color.x), channel(color.y), channel(color.z))
    }
}

impl<'a> RgbCast<&'a Vector3> for Rgb {
    type RgbValue = Rgb;

    open spec fn cast_spec(color: &'a Vector3) -> Rgb {
        rgb_spec(color.x as int, color.y as int, color.z as int)
    }

    fn rgb_cast(color: &'a Vector3) -> (c: Rgb) {
        Rgb::from_channels(channel(color.x), channel(color.y), channel(color.z))
    }
}

impl RgbCast<Point3> for Rgb {
    type RgbValue = Rgb;

    open spec fn cast_spec(color: Point3) -> Rgb {
        rgb_spec(color.x as int, color.y as int, color.z as int)
    }

    fn rgb_cast(color: Point3) -> (c: Rgb) {
        Rgb::from_channels(channel(color.x), channel(color.y), channel(color.z))
    }
}

impl<'a> RgbCast<&'a Point3> for Rgb {
    type RgbValue = Rgb;

    open spec fn cast_spec(color: &'a Point3) -> Rgb {
        rgb_spec(color.x as int, color.y as int, color.z as int)
    }

    fn rgb_cast(color: &'a Point3) -> (c: Rgb) {
        Rgb::from_channels(channel(color.x), channel(color.y), channel(color.z))
    }
}

/// The colour of a colour vector: each component is scaled by 255 and cut
/// off to a byte.
pub fn rgb<V, R: RgbCast<V, RgbValue = R>>(color: V) -> (c: R)
    ensures
        c == R::cast_spec(color),
{
    R::rgb_cast(color)
}

/// The colour of a colour vector with fixed-point components.
pub fn color_rgb(color: Vector3) -> (c: Rgb)
    ensures
        c == rgb_spec(color.x as int, color.y as int, color.z as int),
{
    Rgb::from_channels(channel(color.x), channel(color.y), channel(color.z))
}

} // verus!
