//! Value types for the two-dimensional plane.

pub mod point;
pub mod rectangle;
pub mod size;

pub use point::Point;
pub use rectangle::Rectangle;
pub use size::Size;
