//! Polygons over grid points: containment, fill, outline, area and centroid.
pub mod polygon;

pub use polygon::{ConvexPolygon, RationalPoint};
pub mod rectangle;

pub use rectangle::Rectangle;
pub mod triangle;

pub use triangle::Triangle;
