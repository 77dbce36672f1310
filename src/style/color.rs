use vstd::prelude::*;

use crate::style::rgb::{mix_rgb, Rgb};

verus! {

/// A cell colour: an explicit RGB triple, or the terminal's ambient default,
/// for which no colour sequence is sent.
#[derive(Clone, Copy, Debug, PartialEq, Eq, Structural)]
pub enum Color {
    Rgb(Rgb),
    Default,
}

impl Color {
    /// The explicit colour `(r, g, b)`.
    pub fn rgb(r: u8, g: u8, b: u8) -> (c: Color)
        ensures
            c == Color::Rgb(Rgb { r, g, b }),
    {
        Color::Rgb(Rgb { r, g, b })
    }

    /// An explicit colour drawn at random.
    pub fn random() -> (c: Color)
        ensures
            c is Rgb,
    {
        Color::Rgb(Rgb::random())
    }

    /// Mixes two colours channel by channel in the ratio `num / den` towards
    /// `other`. `Default` absorbs: if either colour is `Default`, so is the
    /// result.
    pub fn mix(&self, other: Color, num: u32, den: u32) -> (c: Color)
        requires
            0 < den,
            num <= den,
        ensures
            (*self is Default || other is Default) ==> c is Default,
            (*self is Rgb && other is Rgb) ==> c == Color::Rgb(
                mix_rgb(self->Rgb_0, other->Rgb_0, num, den),
            ),
    {
        match (self, other) {
            (Color::Rgb(a), Color::Rgb(b)) => Color::Rgb(a.mix(b, num, den)),
            _ => Color::Default,
        }
    }
}

} // verus!
