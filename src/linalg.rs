//! Grid points, displacement vectors and the discrete line algorithm.
pub mod bounding_box;
pub mod bresenham;
pub mod point2;
pub mod vec2;


pub use bounding_box::BoundingBox;
pub use bresenham::Bresenham;
pub use point2::Point2;
pub use vec2::Vec2;
