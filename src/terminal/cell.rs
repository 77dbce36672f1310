use vstd::prelude::*;

use crate::style::color::Color;

verus! {

/// One character with its background and foreground colours.
#[derive(Clone, Copy, Debug, PartialEq, Eq, Structural)]
pub struct Cell {
    pub char: char,
    pub bg: Color,
    pub fg: Color,
}

impl Cell {
    /// A blank on the terminal's default colours.
    pub open spec fn empty_spec() -> Cell {
        Cell { char: ' ', bg: Color::Default, fg: Color::Default }
    }

    /// `char` on the terminal's default colours.
    pub fn new(char: char) -> (r: Cell)
        ensures
            r == (Cell { char, bg: Color::Default, fg: Color::Default }),
    {
        Cell { char, bg: Color::Default, fg: Color::Default }
    }

    /// A blank on the terminal's default colours.
    pub fn empty() -> (r: Cell)
        ensures
            r == Cell::empty_spec(),
    {
        Cell { char: ' ', bg: Color::Default, fg: Color::Default }
    }

    /// This cell with background `bg`.
    pub fn bg(self, bg: Color) -> (r: Cell)
        ensures
            r == (Cell { bg, ..self }),
    {
        Cell { bg, ..self }
    }

    /// This cell with foreground `fg`.
    pub fn fg(self, fg: Color) -> (r: Cell)
        ensures
            r == (Cell { fg, ..self }),
    {
        Cell { fg, ..self }
    }
}

} // verus!
