//! Colors as four 8-bit channels. Conversions from other color models
//! (HSV, HSL, floating-point channels) belong to the host.

use vstd::prelude::*;

verus! {

/// An RGBA color, one byte per channel, alpha 255 meaning opaque.
#[derive(Clone, Copy, Debug, PartialEq, Eq, Structural)]
pub struct Color {
    pub r: u8,
    pub g: u8,
    pub b: u8,
    pub a: u8,
}

impl Color {
    /// A color from its four channel bytes.
    pub fn bytes(r: u8, g: u8, b: u8, a: u8) -> (c: Color)
        ensures
            c.r == r,
            c.g == g,
            c.b == b,
            c.a == a,
    {
        Color { r, g, b, a }
    }

    /// An opaque grey with all three color channels equal.
    pub fn grey(level: u8) -> (c: Color)
        ensures
            c.r == level,
            c.g == level,
            c.b == level,
            c.a == 255,
    {
        Color { r: level, g: level, b: level, a: 255 }
    }

    /// Opaque white, the default scene background.
    pub fn white() -> (c: Color)
        ensures
            c.r == 255 && c.g == 255 && c.b == 255 && c.a == 255,
    {
        Color { r: 255, g: 255, b: 255, a: 255 }
    }
}

} // verus!
