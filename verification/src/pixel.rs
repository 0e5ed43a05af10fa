//! The color value stored in one grid cell.
//!
//! The engine never interprets a color channel: it only stores, copies and
//! compares channels. Each channel is therefore carried as the raw 32-bit
//! pattern of the host toolkit's color component, an opaque `u32` from the
//! engine's point of view. The embedder converts to and from its own color
//! type at the boundary.

use vstd::prelude::*;

verus! {

/// Bit pattern of a full color channel (component value one) in the host
/// toolkit's 32-bit representation.
pub const CHANNEL_FULL: u32 = 0x3F80_0000;

/// An RGBA color; equality is by value, channel for channel.
#[derive(Clone, Copy, Debug, PartialEq, Eq, Structural)]
pub struct PixelColor {
    pub r: u32,
    pub g: u32,
    pub b: u32,
    pub a: u32,
}

impl PixelColor {
    /// The fully transparent color: every channel zero.
    pub open spec fn spec_transparent() -> PixelColor {
        PixelColor { r: 0, g: 0, b: 0, a: 0 }
    }

    /// Executable counterpart of [`PixelColor::spec_transparent`].
    pub fn transparent() -> (c: PixelColor)
        ensures
            c == PixelColor::spec_transparent(),
    {
        PixelColor { r: 0, g: 0, b: 0, a: 0 }
    }
}

/// A single cell's value: an immutable color, cheap to copy and compare.
#[derive(Clone, Copy, Debug, PartialEq, Eq, Structural)]
pub struct Pixel {
    pub color: PixelColor,
}

impl Pixel {
    /// The default cell value: fully transparent.
    pub open spec fn spec_default() -> Pixel {
        Pixel { color: PixelColor::spec_transparent() }
    }

    pub fn new(color: PixelColor) -> (p: Pixel)
        ensures
            p == (Pixel { color }),
    {
        Pixel { color }
    }
}

impl Default for Pixel {
    /// A fresh cell is transparent.
    fn default() -> (p: Pixel)
        ensures
            p == Pixel::spec_default(),
    {
        Pixel { color: PixelColor::transparent() }
    }
}

} // verus!
