//! Display colours: three 8-bit channels, packed as `0xRRGGBB` on the wire.

use vstd::prelude::*;

verus! {

/// A display colour. Every channel is a byte, so a colour can never leave the
/// displayable range: arithmetic on colours saturates.
#[derive(Clone, Copy, Debug, PartialEq, Eq, Structural)]
pub struct Color {
    pub r: u8,
    pub g: u8,
    pub b: u8,
}

/// The channel value that `x` clamps to.
pub open spec fn clamp_channel(x: int) -> u8 {
    if x < 0 {
        0u8
    } else if x > 255 {
        255u8
    } else {
        x as u8
    }
}

/// The colour that a packed value `0xRRGGBB` stands for. Bits above the low
/// 24 do not count.
pub open spec fn unpack(hex: u32) -> Color {
    Color {
        r: ((hex as int / 65536) % 256) as u8,
        g: ((hex as int / 256) % 256) as u8,
        b: (hex as int % 256) as u8,
    }
}

impl Color {
    /// The packed value `0xRRGGBB` of the colour.
    pub open spec fn hex(self) -> u32 {
        (self.r as int * 65536 + self.g as int * 256 + self.b as int) as u32
    }

    /// The channel-wise sum of two colours, each channel stopping at 255.
    pub open spec fn plus(self, other: Color) -> Color {
        Color {
            r: clamp_channel(self.r + other.r),
            g: clamp_channel(self.g + other.g),
            b: clamp_channel(self.b + other.b),
        }
    }

    /// The colour with the given channels.
    pub fn new(r: u8, g: u8, b: u8) -> (c: Color)
        ensures
            c == (Color { r, g, b }),
    {
        Color { r, g, b }
    }

    /// Black: every channel zero.
    pub fn black() -> (c: Color)
        ensures
            c == (Color { r: 0, g: 0, b: 0 }),
    {
        Color { r: 0, g: 0, b: 0 }
    }

    /// Red channel.
    pub fn r(&self) -> (v: u8)
        ensures
            v == self.r,
    {
        self.r
    }

    /// Green channel.
    pub fn g(&self) -> (v: u8)
        ensures
            v == self.g,
    {
        self.g
    }

    /// Blue channel.
    pub fn b(&self) -> (v: u8)
        ensures
            v == self.b,
    {
        self.b
    }

    /// Unpacks `0xRRGGBB`; bits above the low 24 are ignored.
    pub fn from_hex(hex: u32) -> (c: Color)
        ensures
            c == unpack(hex),
    {
        let r: u32 = (hex >> 16) & 0xff;
        let g: u32 = (hex >> 8) & 0xff;
        let b: u32 = hex & 0xff;
        assert(r == (hex / 65536) % 256 && g == (hex / 256) % 256 && b == hex % 256)
            by (bit_vector)
            requires
                r == (hex >> 16) & 0xff,
                g == (hex >> 8) & 0xff,
                b == hex & 0xff,
        ;
        Color { r: r as u8, g: g as u8, b: b as u8 }
    }

    /// Packs the colour as `0xRRGGBB`.
    pub fn to_hex(&self) -> (hex: u32)
        ensures
            hex == self.hex(),
            hex < 0x100_0000,
    {
        let r: u32 = self.r as u32;
        let g: u32 = self.g as u32;
        let b: u32 = self.b as u32;
        let hex: u32 = (r << 16) | (g << 8) | b;
        assert(hex == r * 65536 + g * 256 + b) by (bit_vector)
            requires
                hex == (r << 16) | (g << 8) | b,
                r < 256,
                g < 256,
                b < 256,
        ;
        hex
    }

    /// True when every channel is zero: the colour of a surface that emits
    /// nothing.
    pub fn is_black(&self) -> (z: bool)
        ensures
            z == (*self == Color { r: 0, g: 0, b: 0 }),
    {
        self.r == 0 && self.g == 0 && self.b == 0
    }

    /// Channel-wise sum, each channel stopping at 255.
    pub fn saturating_add(self, other: Color) -> (c: Color)
        ensures
            c == self.plus(other),
    {
        Color {
            r: add_channel(self.r, other.r),
            g: add_channel(self.g, other.g),
            b: add_channel(self.b, other.b),
        }
    }
}

fn add_channel(a: u8, b: u8) -> (s: u8)
    ensures
        s == clamp_channel(a + b),
{
    let wide: u16 = a as u16 + b as u16;
    if wide > 255 {
        255
    } else {
        wide as u8
    }
}

fn clamp_to_channel(x: i64) -> (v: u8)
    ensures
        v == clamp_channel(x as int),
{
    if x < 0 {
        0
    } else if x > 255 {
        255
    } else {
        x as u8
    }
}

/// Brings three channel values of any size into the displayable range:
/// below zero becomes 0, above 255 becomes 255, the rest is kept.
pub fn clamp_color(r: i64, g: i64, b: i64) -> (c: Color)
    ensures
        c == (Color {
            r: clamp_channel(r as int),
            g: clamp_channel(g as int),
            b: clamp_channel(b as int),
        }),
{
    Color { r: clamp_to_channel(r), g: clamp_to_channel(g), b: clamp_to_channel(b) }
}

/// Unpacking a packed colour gives the colour back.
pub proof fn lemma_unpack_hex(c: Color)
    ensures
        unpack(c.hex()) == c,
        c.hex() < 0x100_0000,
{
}

/// Packing an unpacked value keeps its low 24 bits and clears the rest.
pub proof fn lemma_hex_unpack(hex: u32)
    ensures
        unpack(hex).hex() == hex as int % 0x100_0000,
{
}

/// Clamping changes no colour that can be displayed as it is: only channel
/// values outside the byte range are moved, to the nearer end of it.
pub proof fn lemma_clamp_keeps_colors(c: Color, r: int, g: int)
    ensures
        clamp_channel(c.r as int) == c.r,
        clamp_channel(c.g as int) == c.g,
        clamp_channel(c.b as int) == c.b,
        0 <= r <= 255 ==> clamp_channel(r) == r,
        r < 0 ==> clamp_channel(r) == 0,
        r > 255 ==> clamp_channel(r) == 255,
        r <= g ==> clamp_channel(r) <= clamp_channel(g),
{
}

/// Adding black changes nothing, the sum does not depend on the order of
/// its operands, and it is never darker than either of them.
pub proof fn lemma_plus(a: Color, b: Color)
    ensures
        a.plus(Color { r: 0, g: 0, b: 0 }) == a,
        a.plus(b) == b.plus(a),
        a.plus(b).r >= a.r,
        a.plus(b).g >= a.g,
        a.plus(b).b >= a.b,
{
}

} // verus!
