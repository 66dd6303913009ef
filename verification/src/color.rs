//! Packed-integer colors as the foreign drawing primitives expect them:
//! `0x00BBGGRR` with one byte per channel.

use vstd::prelude::*;

verus! {

/// A color packed into a single integer, the encoding the foreign
/// drawing primitives take as their color argument.
#[derive(Debug, Copy, Clone, PartialEq, Eq, Structural)]
pub struct Color(pub i32);

impl Color {
    /// Packs the three channels, blue in the highest of the three
    /// used bytes and red in the lowest.
    pub fn rgb(red: u8, green: u8, blue: u8) -> (c: Color)
        ensures
            c.0 == blue * 0x10000 + green * 0x100 + red,
    {
        Color((blue as i32) * 0x10000 + (green as i32) * 0x100 + (red as i32))
    }

    /// A gray level: the same intensity in all three channels.
    pub fn gs(intensity: u8) -> (c: Color)
        ensures
            c.0 == intensity * 0x010101,
    {
        Color((intensity as i32) * 0x010101)
    }
}

} // verus!
