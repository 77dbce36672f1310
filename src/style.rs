//! Colours: explicit RGB triples or the terminal's own default, mixing, and
//! a grayscale ramp of ASCII characters.
pub mod color;
pub mod grayscale;
pub mod rgb;

pub use color::Color;
pub use grayscale::Grayscale;
pub use rgb::Rgb;
