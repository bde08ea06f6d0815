//! The `Color` value and its packed `0xRRGGBB` form.

use vstd::prelude::*;

verus! {

/// A colour with red, green, blue and alpha channels of eight bits each.
///
/// An alpha of 255 is fully opaque, 0 is fully transparent.
#[derive(Copy, Clone, Debug, PartialEq, Eq, Structural)]
pub struct Color {
    /// The red channel.
    pub r: u8,
    /// The green channel.
    pub g: u8,
    /// The blue channel.
    pub b: u8,
    /// The alpha channel.
    pub a: u8,
}

impl Color {
    /// Fully opaque black, the colour of a fresh texture.
    pub open spec fn black_spec() -> Color {
        Color { r: 0, g: 0, b: 0, a: 255 }
    }

    /// Fully opaque black, the colour of a fresh texture.
    #[verifier::when_used_as_spec(black_spec)]
    pub fn black() -> (c: Color)
        ensures
            c == (Color { r: 0, g: 0, b: 0, a: 255 }),
    {
        Color { r: 0, g: 0, b: 0, a: 255 }
    }

    /// Fully opaque white.
    pub open spec fn white_spec() -> Color {
        Color { r: 255, g: 255, b: 255, a: 255 }
    }

    /// Fully opaque white.
    #[verifier::when_used_as_spec(white_spec)]
    pub fn white() -> (c: Color)
        ensures
            c == (Color { r: 255, g: 255, b: 255, a: 255 }),
    {
        Color { r: 255, g: 255, b: 255, a: 255 }
    }

    /// Fully opaque red.
    pub open spec fn red_spec() -> Color {
        Color { r: 255, g: 0, b: 0, a: 255 }
    }

    /// Fully opaque red.
    #[verifier::when_used_as_spec(red_spec)]
    pub fn red() -> (c: Color)
        ensures
            c == (Color { r: 255, g: 0, b: 0, a: 255 }),
    {
        Color { r: 255, g: 0, b: 0, a: 255 }
    }

    /// Fully opaque green.
    pub open spec fn green_spec() -> Color {
        Color { r: 0, g: 255, b: 0, a: 255 }
    }

    /// Fully opaque green.
    #[verifier::when_used_as_spec(green_spec)]
    pub fn green() -> (c: Color)
        ensures
            c == (Color { r: 0, g: 255, b: 0, a: 255 }),
    {
        Color { r: 0, g: 255, b: 0, a: 255 }
    }

    /// Fully opaque blue.
    pub open spec fn blue_spec() -> Color {
        Color { r: 0, g: 0, b: 255, a: 255 }
    }

    /// Fully opaque blue.
    #[verifier::when_used_as_spec(blue_spec)]
    pub fn blue() -> (c: Color)
        ensures
            c == (Color { r: 0, g: 0, b: 255, a: 255 }),
    {
        Color { r: 0, g: 0, b: 255, a: 255 }
    }

    /// The packed form of a colour: `0xRRGGBB`, alpha left out.
    pub open spec fn to_hex_spec(&self) -> u32 {
        (self.r * 65536 + self.g * 256 + self.b) as u32
    }

    /// The opaque colour that a packed value stands for. Bits above the low
    /// 24 carry no channel and are ignored.
    pub open spec fn from_hex_spec(hex: u32) -> Color {
        Color {
            r: ((hex / 65536) % 256) as u8,
            g: ((hex / 256) % 256) as u8,
            b: (hex % 256) as u8,
            a: 255,
        }
    }

    /// A colour from its four channels.
    pub fn rgba(r: u8, g: u8, b: u8, a: u8) -> (c: Color)
        ensures
            c == (Color { r, g, b, a }),
    {
        Color { r, g, b, a }
    }

    /// A fully opaque colour from its red, green and blue channels.
    pub fn rgb(r: u8, g: u8, b: u8) -> (c: Color)
        ensures
            c == (Color { r, g, b, a: 255 }),
    {
        Color::rgba(r, g, b, 255)
    }

    /// The opaque colour that the packed value `0xRRGGBB` stands for.
    #[verifier::when_used_as_spec(from_hex_spec)]
    pub fn from_hex(hex: u32) -> (c: Color)
        ensures
            c == Color::from_hex_spec(hex),
            c.a == 255,
    {
        let r: u32 = (hex / 65536) % 256;
        let g: u32 = (hex / 256) % 256;
        let b: u32 = hex % 256;
        Color { r: r as u8, g: g as u8, b: b as u8, a: 255 }
    }

    /// The packed form `0xRRGGBB` of the colour. Alpha is dropped.
    #[verifier::when_used_as_spec(to_hex_spec)]
    pub fn to_hex(&self) -> (hex: u32)
        ensures
            hex == self.to_hex_spec(),
            hex == self.r * 65536 + self.g * 256 + self.b,
            hex <= 0xFF_FFFF,
    {
        self.r as u32 * 0x10000 + self.g as u32 * 0x100 + self.b as u32
    }

    /// Packing a colour and unpacking it again gives back its red, green and
    /// blue channels; alpha comes back fully opaque.
    pub proof fn lemma_hex_round_trip(c: Color)
        ensures
            Color::from_hex_spec(c.to_hex_spec()).r == c.r,
            Color::from_hex_spec(c.to_hex_spec()).g == c.g,
            Color::from_hex_spec(c.to_hex_spec()).b == c.b,
            Color::from_hex_spec(c.to_hex_spec()).a == 255,
    {
    }

    /// Unpacking a value and packing it again keeps its low 24 bits.
    pub proof fn lemma_hex_of_unpacked(hex: u32)
        ensures
            Color::from_hex_spec(hex).to_hex_spec() == hex % 0x100_0000,
    {
    }
}

} // verus!
