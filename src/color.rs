//! RGB colors with 8-bit channels.
use vstd::prelude::*;

verus! {

/// An RGB color with one byte per channel.
#[derive(Debug, Clone, Copy, PartialEq, Eq, Structural, Default)]
pub struct Color {
    pub r: u8,
    pub g: u8,
    pub b: u8,
}

/// The packed `0xRRGGBB` value of a color.
pub open spec fn hex_value(c: Color) -> int {
    c.r as int * 65536 + c.g as int * 256 + c.b as int
}

/// The color with every channel off.
pub open spec fn black_color() -> Color {
    Color { r: 0, g: 0, b: 0 }
}

impl Color {
    /// Black, every channel off.
    pub fn black() -> (c: Color)
        ensures
            c == black_color(),
    {
        Color { r: 0, g: 0, b: 0 }
    }

    /// White, every channel full.
    pub fn white() -> (c: Color)
        ensures
            c == (Color { r: 255, g: 255, b: 255 }),
    {
        Color { r: 255, g: 255, b: 255 }
    }

    /// Builds a color from its three channels.
    pub fn new(r: u8, g: u8, b: u8) -> (c: Color)
        ensures
            c == (Color { r, g, b }),
    {
        Color { r, g, b }
    }

    /// Unpacks a `0xRRGGBB` value; bits above the lowest 24 are ignored.
    pub fn from_hex(hex: u32) -> (c: Color)
        ensures
            c.r == (hex / 65536) % 256,
            c.g == (hex / 256) % 256,
            c.b == hex % 256,
    {
        assert(((hex >> 16u32) & 0xFFu32) == (hex / 65536) % 256) by (bit_vector);
        assert(((hex >> 8u32) & 0xFFu32) == (hex / 256) % 256) by (bit_vector);
        assert((hex & 0xFFu32) == hex % 256) by (bit_vector);
        Color {
            r: ((hex >> 16u32) & 0xFFu32) as u8,
            g: ((hex >> 8u32) & 0xFFu32) as u8,
            b: (hex & 0xFFu32) as u8,
        }
    }

    /// Packs the color as `0xRRGGBB`.
    pub fn to_hex(self) -> (h: u32)
        ensures
            h == hex_value(self),
    {
        let r = self.r as u32;
        let g = self.g as u32;
        let b = self.b as u32;
        assert(r < 256 && g < 256 && b < 256 ==> ((r << 16u32) | (g << 8u32) | b) == r * 65536
            + g * 256 + b) by (bit_vector);
        (r << 16u32) | (g << 8u32) | b
    }
}

impl From<[u8; 3]> for Color {
    fn from(arr: [u8; 3]) -> (c: Color) {
        Color { r: arr[0], g: arr[1], b: arr[2] }
    }
}

impl vstd::std_specs::convert::FromSpecImpl<[u8; 3]> for Color {
    open spec fn obeys_from_spec() -> bool {
        true
    }

    open spec fn from_spec(arr: [u8; 3]) -> Color {
        Color { r: arr@[0], g: arr@[1], b: arr@[2] }
    }
}

} // verus!
