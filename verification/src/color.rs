//! Colors and their 16-bit wire format.

use embedded_graphics::pixelcolor::raw::{RawData, RawU16};
use embedded_graphics::pixelcolor::Bgr565;
use vstd::prelude::*;

verus! {

/// A color by its channels. The wire format keeps the low five bits of red
/// and blue and the low six bits of green.
#[derive(Clone, Copy, Debug, PartialEq, Eq, Structural)]
pub struct Color {
    pub r: u8,
    pub g: u8,
    pub b: u8,
}

/// The 16-bit color word of a color: blue in bits 11 to 15, green in bits 5
/// to 10, red in bits 0 to 4.
pub open spec fn wire_word(color: Color) -> u16 {
    (((color.b & 0x1f) as u16) << 11) | (((color.g & 0x3f) as u16) << 5) | ((color.r & 0x1f) as u16)
}

/// Packs a color with `embedded_graphics`: `Bgr565::new` on the three
/// channels, then `RawU16::from` and `RawData::into_inner` for the stored
/// word. Trusted: `Bgr565::new` masks each channel to its width (5, 6, 5 bits)
/// and shifts red by 0, green by 5 and blue by 11; the two conversions hand
/// the stored word on unchanged.
#[verifier::external_body]
pub(crate) fn raw_color(color: Color) -> (word: u16)
    ensures
        word == wire_word(color),
{
    RawU16::from(Bgr565::new(color.r, color.g, color.b)).into_inner()
}

impl Color {
    /// The color word that goes on the wire for this color.
    pub fn to_word(self) -> (word: u16)
        ensures
            word == wire_word(self),
    {
        raw_color(self)
    }
}

} // verus!
