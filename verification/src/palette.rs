//! Colours and the palettes they are picked from.
//!
//! A palette is five colours, each written as one number whose three low
//! bytes are the red, green and blue channels.

use vstd::prelude::*;

verus! {

/// A colour with one byte per channel.
#[derive(Clone, Copy, Debug, PartialEq, Eq)]
pub struct Color {
    pub red: u8,
    pub green: u8,
    pub blue: u8,
}

/// The colour that the number `hex` stands for: blue is its lowest byte,
/// green the next and red the third. Higher bits are ignored.
pub open spec fn hex_color(hex: u32) -> Color {
    Color {
        red: ((hex as int / 0x1_0000) % 0x100) as u8,
        green: ((hex as int / 0x100) % 0x100) as u8,
        blue: (hex as int % 0x100) as u8,
    }
}

/// Whether `color` is one of the five entries of `palette`.
pub open spec fn in_palette(color: Color, palette: [u32; 5]) -> bool {
    exists|k: int| 0 <= k < 5 && color == hex_color(#[trigger] palette@[k])
}

/// Calls nannou's `rgb_u32` and copies the three channels out of the colour
/// it builds. That function masks the low byte for blue, shifts by 8 and masks
/// for green, and shifts by 16 and masks for red.
#[verifier::external_body]
pub(crate) fn rgb_u32(hex: u32) -> (color: Color)
    ensures
        color == hex_color(hex),
{
    let rgb = nannou::color::rgb_u32(hex);
    Color { red: rgb.red, green: rgb.green, blue: rgb.blue }
}

/// Calls paleta's `all_hex`, which hands out a copy of its built-in table of
/// one hundred palettes.
#[verifier::external_body]
pub(crate) fn all_hex() -> (table: Vec<[u32; 5]>)
    ensures
        table@.len() == 100,
{
    paleta_rs::all_hex()
}

impl Color {
    /// The colour every tile starts with.
    pub fn black() -> (color: Color)
        ensures
            color == (Color { red: 0, green: 0, blue: 0 }),
    {
        Color { red: 0, green: 0, blue: 0 }
    }
}

} // verus!
