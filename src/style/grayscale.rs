use vstd::prelude::*;

use crate::style::rgb::Rgb;

verus! {

/// A gray level, 0 (black) to 255 (white).
#[derive(Clone, Copy, Debug, PartialEq, Eq, Structural)]
pub struct Grayscale {
    value: u8,
}

/// Luma of a colour with weights 0.299, 0.587 and 0.114, rounded down.
pub open spec fn luma(c: Rgb) -> int {
    (299 * c.r + 587 * c.g + 114 * c.b) / 1000
}

/// The ASCII ramp, darkest first.
pub open spec fn ramp() -> Seq<char> {
    seq![' ', '.', '-', '+', '*', '#', '@']
}

impl Grayscale {
    /// The gray level.
    pub closed spec fn level(&self) -> u8 {
        self.value
    }

    pub fn new(value: u8) -> (r: Grayscale)
        ensures
            r.level() == value,
    {
        Grayscale { value }
    }

    /// The gray level of a colour: its luma.
    pub fn from_rgb(color: Rgb) -> (r: Grayscale)
        ensures
            r.level() == luma(color),
    {
        let sum: u32 = 299 * (color.r as u32) + 587 * (color.g as u32) + 114 * (color.b as u32);
        Grayscale { value: (sum / 1000) as u8 }
    }

    /// The ramp character for this level: index `level * 7 / 255`. Full white
    /// falls past the ramp's end.
    pub fn into_char(&self) -> (c: char)
        requires
            self.level() < 255,
        ensures
            c == ramp()[self.level() * 7 / 255],
    {
        let index: usize = (self.value as usize) * 7 / 255;
        let scale: [char; 7] = [' ', '.', '-', '+', '*', '#', '@'];
        assert(scale@ =~= ramp());
        scale[index]
    }
}

} // verus!
