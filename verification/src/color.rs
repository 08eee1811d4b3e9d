//! Colors in the 32-bit BGR0 format used by VEXos, and plain 24-bit RGB
//! triples.

use vstd::prelude::*;

verus! {

/// A color stored in the 32-bit BGR0 format, the last byte being reserved.
///
/// Its raw form is a little-endian word: blue in the lowest byte, then green,
/// red, and the reserved byte.
#[derive(Debug, Clone, Copy, PartialEq, Eq, Hash, Structural)]
pub struct Color {
    /// Blue channel.
    pub b: u8,
    /// Green channel.
    pub g: u8,
    /// Red channel.
    pub r: u8,
    reserved: u8,
}

impl View for Color {
    type V = (u8, u8, u8, u8);

    /// A color is seen as its bytes in memory order: blue, green, red and the
    /// reserved byte.
    closed spec fn view(&self) -> (u8, u8, u8, u8) {
        (self.b, self.g, self.r, self.reserved)
    }
}

/// The raw word of a color whose bytes are `v` (blue, green, red, reserved).
pub open spec fn color_word(v: (u8, u8, u8, u8)) -> u32 {
    (v.0 + v.1 * 0x100 + v.2 * 0x1_0000 + v.3 * 0x100_0000) as u32
}

/// The bytes (blue, green, red, reserved) of the color whose raw word is `raw`.
pub open spec fn word_color(raw: u32) -> (u8, u8, u8, u8) {
    (
        (raw % 0x100) as u8,
        ((raw / 0x100) % 0x100) as u8,
        ((raw / 0x1_0000) % 0x100) as u8,
        (raw / 0x100_0000) as u8,
    )
}

proof fn lemma_word_bits(raw: u32)
    ensures
        raw & 0xff == raw % 0x100,
        (raw >> 8u32) & 0xff == (raw / 0x100) % 0x100,
        (raw >> 16u32) & 0xff == (raw / 0x1_0000) % 0x100,
        raw >> 24u32 == raw / 0x100_0000,
{
    assert(raw & 0xff == raw % 0x100) by (bit_vector);
    assert((raw >> 8u32) & 0xff == (raw / 0x100) % 0x100) by (bit_vector);
    assert((raw >> 16u32) & 0xff == (raw / 0x1_0000) % 0x100) by (bit_vector);
    assert(raw >> 24u32 == raw / 0x100_0000) by (bit_vector);
}

proof fn lemma_bytes_word(b: u32, g: u32, r: u32, x: u32)
    requires
        b < 0x100,
        g < 0x100,
        r < 0x100,
        x < 0x100,
    ensures
        b | (g << 8u32) | (r << 16u32) | (x << 24u32) == b + g * 0x100 + r * 0x1_0000 + x * 0x100_0000,
{
    assert(b | (g << 8u32) | (r << 16u32) | (x << 24u32) == b + g * 0x100 + r * 0x1_0000 + x
        * 0x100_0000) by (bit_vector)
        requires
            b < 0x100,
            g < 0x100,
            r < 0x100,
            x < 0x100,
    ;
}

/// The color whose bytes are `v` (blue, green, red, reserved).
pub closed spec fn color_of(v: (u8, u8, u8, u8)) -> Color {
    Color { b: v.0, g: v.1, r: v.2, reserved: v.3 }
}

/// A color is determined by its bytes.
pub proof fn lemma_color_of(v: (u8, u8, u8, u8), c: Color)
    ensures
        color_of(v)@ == v,
        color_of(c@) == c,
{
}

impl Color {
    /// Creates a color from its red, green and blue channels; the reserved
    /// byte is zero.
    pub fn new(r: u8, g: u8, b: u8) -> (c: Color)
        ensures
            c@ == (b, g, r, 0u8),
    {
        Color { b, g, r, reserved: 0 }
    }

    /// Reads a color from its raw little-endian BGR0 word, keeping all four
    /// bytes.
    pub fn from_raw(raw: u32) -> (c: Color)
        ensures
            c@ == word_color(raw),
    {
        proof {
            lemma_word_bits(raw);
        }
        Color {
            b: (raw & 0xff) as u8,
            g: ((raw >> 8u32) & 0xff) as u8,
            r: ((raw >> 16u32) & 0xff) as u8,
            reserved: (raw >> 24u32) as u8,
        }
    }

    /// The raw little-endian BGR0 word of this color.
    pub fn into_raw(self) -> (raw: u32)
        ensures
            raw == color_word(self@),
    {
        proof {
            lemma_bytes_word(self.b as u32, self.g as u32, self.r as u32, self.reserved as u32);
        }
        (self.b as u32) | ((self.g as u32) << 8u32) | ((self.r as u32) << 16u32) | ((
        self.reserved as u32) << 24u32)
    }

    /// The red channel.
    pub fn red(&self) -> (r: u8)
        ensures
            r == self@.2,
    {
        self.r
    }

    /// The green channel.
    pub fn green(&self) -> (r: u8)
        ensures
            r == self@.1,
    {
        self.g
    }

    /// The blue channel.
    pub fn blue(&self) -> (r: u8)
        ensures
            r == self@.0,
    {
        self.b
    }

    /// The color's channels as a `(red, green, blue)` triple.
    pub fn into_tuple(self) -> (t: (u8, u8, u8))
        ensures
            t == (self@.2, self@.1, self@.0),
    {
        (self.r, self.g, self.b)
    }
}

/// Reading a color back from its raw word gives the same color.
pub proof fn lemma_color_raw_roundtrip(c: (u8, u8, u8, u8))
    ensures
        word_color(color_word(c)) == c,
{
    let w = c.0 + c.1 * 0x100 + c.2 * 0x1_0000 + c.3 * 0x100_0000;
    assert(w < 0x1_0000_0000);
    assert(w % 0x100 == c.0) by (nonlinear_arith)
        requires
            w == c.0 + c.1 * 0x100 + c.2 * 0x1_0000 + c.3 * 0x100_0000,
            0 <= c.0 < 0x100,
            0 <= c.1 < 0x100,
            0 <= c.2 < 0x100,
            0 <= c.3 < 0x100,
    ;
    assert((w / 0x100) % 0x100 == c.1) by (nonlinear_arith)
        requires
            w == c.0 + c.1 * 0x100 + c.2 * 0x1_0000 + c.3 * 0x100_0000,
            0 <= c.0 < 0x100,
            0 <= c.1 < 0x100,
            0 <= c.2 < 0x100,
            0 <= c.3 < 0x100,
    ;
    assert((w / 0x1_0000) % 0x100 == c.2) by (nonlinear_arith)
        requires
            w == c.0 + c.1 * 0x100 + c.2 * 0x1_0000 + c.3 * 0x100_0000,
            0 <= c.0 < 0x100,
            0 <= c.1 < 0x100,
            0 <= c.2 < 0x100,
            0 <= c.3 < 0x100,
    ;
    assert(w / 0x100_0000 == c.3) by (nonlinear_arith)
        requires
            w == c.0 + c.1 * 0x100 + c.2 * 0x1_0000 + c.3 * 0x100_0000,
            0 <= c.0 < 0x100,
            0 <= c.1 < 0x100,
            0 <= c.2 < 0x100,
            0 <= c.3 < 0x100,
    ;
}

/// Writing the color read from a raw word gives the same word.
pub proof fn lemma_raw_color_roundtrip(raw: u32)
    ensures
        color_word(word_color(raw)) == raw,
{
    let b = raw % 0x100;
    let g = (raw / 0x100) % 0x100;
    let r = (raw / 0x1_0000) % 0x100;
    let x = raw / 0x100_0000;
    assert(b + g * 0x100 + r * 0x1_0000 + x * 0x100_0000 == raw) by (nonlinear_arith)
        requires
            b == raw % 0x100,
            g == (raw / 0x100) % 0x100,
            r == (raw / 0x1_0000) % 0x100,
            x == raw / 0x100_0000,
            0 <= raw,
    ;
}

impl Default for Color {
    /// Black, with the reserved byte zero.
    fn default() -> (c: Color)
        ensures
            c@ == (0u8, 0u8, 0u8, 0u8),
    {
        Color { b: 0, g: 0, r: 0, reserved: 0 }
    }
}

impl From<u32> for Color {
    fn from(raw: u32) -> (c: Color)
        ensures
            c@ == word_color(raw),
    {
        Color::from_raw(raw)
    }
}

impl vstd::std_specs::convert::FromSpecImpl<u32> for Color {
    open spec fn obeys_from_spec() -> bool {
        true
    }

    open spec fn from_spec(raw: u32) -> Color {
        color_of(word_color(raw))
    }
}

impl From<Color> for u32 {
    fn from(c: Color) -> (raw: u32)
        ensures
            raw == color_word(c@),
    {
        c.into_raw()
    }
}

impl vstd::std_specs::convert::FromSpecImpl<Color> for u32 {
    open spec fn obeys_from_spec() -> bool {
        true
    }

    open spec fn from_spec(c: Color) -> u32 {
        color_word(c@)
    }
}

impl From<(u8, u8, u8)> for Color {
    fn from(t: (u8, u8, u8)) -> (c: Color)
        ensures
            c@ == (t.2, t.1, t.0, 0u8),
    {
        Color { b: t.2, g: t.1, r: t.0, reserved: 0 }
    }
}

impl vstd::std_specs::convert::FromSpecImpl<(u8, u8, u8)> for Color {
    open spec fn obeys_from_spec() -> bool {
        true
    }

    open spec fn from_spec(t: (u8, u8, u8)) -> Color {
        color_of((t.2, t.1, t.0, 0u8))
    }
}

/// A 24-bit color as a red, green and blue triple, whose raw form is
/// `0x00RRGGBB`.
#[derive(Debug, Clone, Copy, PartialEq, Eq, Default, Hash, Structural)]
pub struct Rgb {
    /// Red channel.
    pub r: u8,
    /// Green channel.
    pub g: u8,
    /// Blue channel.
    pub b: u8,
}

/// The raw `0x00RRGGBB` word of a triple.
pub open spec fn rgb_word(c: Rgb) -> u32 {
    (c.r * 0x1_0000 + c.g * 0x100 + c.b) as u32
}

impl Rgb {
    /// Creates a triple from its channels.
    pub fn new(r: u8, g: u8, b: u8) -> (c: Rgb)
        ensures
            c == (Rgb { r, g, b }),
    {
        Rgb { r, g, b }
    }

    /// Reads a triple from a raw `0x00RRGGBB` word; the top byte is ignored.
    pub fn from_raw(raw: u32) -> (c: Rgb)
        ensures
            c == (Rgb {
                r: ((raw / 0x1_0000) % 0x100) as u8,
                g: ((raw / 0x100) % 0x100) as u8,
                b: (raw % 0x100) as u8,
            }),
    {
        proof {
            lemma_word_bits(raw);
        }
        Rgb { r: ((raw >> 16u32) & 0xff) as u8, g: ((raw >> 8u32) & 0xff) as u8, b: (raw & 0xff) as u8 }
    }

    /// The raw `0x00RRGGBB` word of this triple.
    pub fn into_raw(self) -> (raw: u32)
        ensures
            raw == rgb_word(self),
    {
        let r: u32 = self.r as u32;
        let g: u32 = self.g as u32;
        let b: u32 = self.b as u32;
        assert(r << 16u32 == r * 0x1_0000 && g << 8u32 == g * 0x100) by (bit_vector)
            requires
                r < 0x100,
                g < 0x100,
        ;
        (r << 16u32) + (g << 8u32) + b
    }
}

/// A triple read back from its raw word is the same triple, and the word of a
/// triple read from any word keeps that word's low three bytes.
pub proof fn lemma_rgb_raw_roundtrip(c: Rgb, raw: u32)
    ensures
        (Rgb {
            r: ((rgb_word(c) / 0x1_0000) % 0x100) as u8,
            g: ((rgb_word(c) / 0x100) % 0x100) as u8,
            b: (rgb_word(c) % 0x100) as u8,
        }) == c,
        rgb_word(
            Rgb {
                r: ((raw / 0x1_0000) % 0x100) as u8,
                g: ((raw / 0x100) % 0x100) as u8,
                b: (raw % 0x100) as u8,
            },
        ) == raw % 0x100_0000,
{
    lemma_color_raw_roundtrip((c.b, c.g, c.r, 0u8));
    lemma_raw_color_roundtrip(raw);
    assert(raw % 0x100_0000 == raw - (raw / 0x100_0000) * 0x100_0000) by (nonlinear_arith)
        requires 0 <= raw;
}

impl From<Rgb> for Color {
    fn from(c: Rgb) -> (r: Color)
        ensures
            r@ == (c.b, c.g, c.r, 0u8),
    {
        Color { b: c.b, g: c.g, r: c.r, reserved: 0 }
    }
}

impl vstd::std_specs::convert::FromSpecImpl<Rgb> for Color {
    open spec fn obeys_from_spec() -> bool {
        true
    }

    open spec fn from_spec(c: Rgb) -> Color {
        color_of((c.b, c.g, c.r, 0u8))
    }
}

impl From<Color> for Rgb {
    fn from(c: Color) -> (r: Rgb)
        ensures
            r == (Rgb { r: c@.2, g: c@.1, b: c@.0 }),
    {
        Rgb { r: c.r, g: c.g, b: c.b }
    }
}

impl vstd::std_specs::convert::FromSpecImpl<Color> for Rgb {
    open spec fn obeys_from_spec() -> bool {
        true
    }

    open spec fn from_spec(c: Color) -> Rgb {
        Rgb { r: c@.2, g: c@.1, b: c@.0 }
    }
}

} // verus!
