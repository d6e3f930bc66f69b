//! Plain graphics values used by the text module.
use vstd::prelude::*;

verus! {

/// The bit pattern of `+inf` in IEEE-754 single precision.
pub const F32_INFINITY_BITS: u32 = 0x7f80_0000u32;

/// The bit pattern of `1.0` in IEEE-754 single precision.
pub const F32_ONE_BITS: u32 = 0x3f80_0000u32;

/// The bit pattern of `16.0` in IEEE-754 single precision.
pub const F32_SIXTEEN_BITS: u32 = 0x4180_0000u32;

/// An RGBA colour; each channel is a single-precision number held by its bit pattern.
#[derive(Clone, Copy, Debug, PartialEq, Eq, Structural)]
pub struct Color {
    pub r: u32,
    pub g: u32,
    pub b: u32,
    pub a: u32,
}

/// Opaque white: every channel is `1.0`.
pub open spec fn spec_white() -> Color {
    Color { r: F32_ONE_BITS, g: F32_ONE_BITS, b: F32_ONE_BITS, a: F32_ONE_BITS }
}

/// Opaque white, the colour text is drawn in when nothing else is given.
pub fn white() -> (c: Color)
    ensures
        c == spec_white(),
{
    Color { r: F32_ONE_BITS, g: F32_ONE_BITS, b: F32_ONE_BITS, a: F32_ONE_BITS }
}

/// A point in screen space; each coordinate is a single-precision number held by its bit pattern.
#[derive(Clone, Copy, Debug, PartialEq, Eq, Structural)]
pub struct Point2 {
    pub x: u32,
    pub y: u32,
}

impl Point2 {
    /// Builds a point from the bit patterns of its coordinates.
    pub fn new(x: u32, y: u32) -> (p: Point2)
        ensures
            p == (Point2 { x, y }),
    {
        Point2 { x, y }
    }
}

/// How drawn pixels are combined with what is already on screen.
#[derive(Clone, Copy, Debug, PartialEq, Eq, Structural)]
pub enum BlendMode {
    Add,
    Subtract,
    Alpha,
    Invert,
    Multiply,
    Replace,
    Lighten,
    Darken,
}

} // verus!
