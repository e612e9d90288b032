use vstd::prelude::*;

verus! {

/// An RGBA colour, one byte per channel.
#[derive(Clone, Copy, PartialEq, Eq, Structural, Debug)]
pub struct Color {
    pub r: u8,
    pub g: u8,
    pub b: u8,
    pub a: u8,
}

impl Color {
    /// An opaque colour.
    pub fn RGB(r: u8, g: u8, b: u8) -> (c: Color)
        ensures
            c == (Color { r, g, b, a: 255 }),
    {
        Color { r, g, b, a: 255 }
    }

    /// Opaque black.
    pub open spec fn opaque_black() -> Color {
        Color { r: 0, g: 0, b: 0, a: 255 }
    }

    /// A colour with the given opacity.
    pub fn RGBA(r: u8, g: u8, b: u8, a: u8) -> (c: Color)
        ensures
            c == (Color { r, g, b, a }),
    {
        Color { r, g, b, a }
    }
}

/// The palette of named colours, all opaque.
pub struct Colors;

impl Colors {
    pub fn white() -> (c: Color)
        ensures
            c == (Color { r: 255, g: 255, b: 255, a: 255 }),
    {
        Color { r: 255, g: 255, b: 255, a: 255 }
    }
    pub fn light_grey() -> (c: Color)
        ensures
            c == (Color { r: 191, g: 191, b: 191, a: 255 }),
    {
        Color { r: 191, g: 191, b: 191, a: 255 }
    }
    pub fn grey() -> (c: Color)
        ensures
            c == (Color { r: 127, g: 127, b: 127, a: 255 }),
    {
        Color { r: 127, g: 127, b: 127, a: 255 }
    }
    pub fn dark_grey() -> (c: Color)
        ensures
            c == (Color { r: 63, g: 63, b: 63, a: 255 }),
    {
        Color { r: 63, g: 63, b: 63, a: 255 }
    }
    pub fn black() -> (c: Color)
        ensures
            c == (Color { r: 0, g: 0, b: 0, a: 255 }),
    {
        Color { r: 0, g: 0, b: 0, a: 255 }
    }

    pub fn red() -> (c: Color)
        ensures
            c == (Color { r: 255, g: 0, b: 0, a: 255 }),
    {
        Color { r: 255, g: 0, b: 0, a: 255 }
    }
    pub fn red_orange() -> (c: Color)
        ensures
            c == (Color { r: 255, g: 63, b: 0, a: 255 }),
    {
        Color { r: 255, g: 63, b: 0, a: 255 }
    }
    pub fn orange() -> (c: Color)
        ensures
            c == (Color { r: 255, g: 127, b: 0, a: 255 }),
    {
        Color { r: 255, g: 127, b: 0, a: 255 }
    }
    pub fn amber() -> (c: Color)
        ensures
            c == (Color { r: 255, g: 191, b: 0, a: 255 }),
    {
        Color { r: 255, g: 191, b: 0, a: 255 }
    }
    pub fn yellow() -> (c: Color)
        ensures
            c == (Color { r: 255, g: 255, b: 0, a: 255 }),
    {
        Color { r: 255, g: 255, b: 0, a: 255 }
    }

    pub fn chartreuse() -> (c: Color)
        ensures
            c == (Color { r: 127, g: 255, b: 0, a: 255 }),
    {
        Color { r: 127, g: 255, b: 0, a: 255 }
    }
    pub fn green() -> (c: Color)
        ensures
            c == (Color { r: 0, g: 255, b: 0, a: 255 }),
    {
        Color { r: 0, g: 255, b: 0, a: 255 }
    }
    pub fn lime() -> (c: Color)
        ensures
            c == (Color { r: 0, g: 255, b: 127, a: 255 }),
    {
        Color { r: 0, g: 255, b: 127, a: 255 }
    }
    pub fn cyan() -> (c: Color)
        ensures
            c == (Color { r: 0, g: 255, b: 255, a: 255 }),
    {
        Color { r: 0, g: 255, b: 255, a: 255 }
    }

    pub fn azure() -> (c: Color)
        ensures
            c == (Color { r: 0, g: 127, b: 255, a: 255 }),
    {
        Color { r: 0, g: 127, b: 255, a: 255 }
    }
    pub fn blue() -> (c: Color)
        ensures
            c == (Color { r: 0, g: 0, b: 255, a: 255 }),
    {
        Color { r: 0, g: 0, b: 255, a: 255 }
    }
    pub fn violet() -> (c: Color)
        ensures
            c == (Color { r: 127, g: 0, b: 255, a: 255 }),
    {
        Color { r: 127, g: 0, b: 255, a: 255 }
    }
    pub fn magenta() -> (c: Color)
        ensures
            c == (Color { r: 255, g: 0, b: 255, a: 255 }),
    {
        Color { r: 255, g: 0, b: 255, a: 255 }
    }
    pub fn pink() -> (c: Color)
        ensures
            c == (Color { r: 255, g: 0, b: 127, a: 255 }),
    {
        Color { r: 255, g: 0, b: 127, a: 255 }
    }

    pub fn sky_blue() -> (c: Color)
        ensures
            c == (Color { r: 135, g: 206, b: 235, a: 255 }),
    {
        Color { r: 135, g: 206, b: 235, a: 255 }
    }
    pub fn royal_blue() -> (c: Color)
        ensures
            c == (Color { r: 65, g: 105, b: 225, a: 255 }),
    {
        Color { r: 65, g: 105, b: 225, a: 255 }
    }
    pub fn beige() -> (c: Color)
        ensures
            c == (Color { r: 255, g: 240, b: 200, a: 255 }),
    {
        Color { r: 255, g: 240, b: 200, a: 255 }
    }
}

} // verus!
