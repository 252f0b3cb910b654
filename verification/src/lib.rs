//! Plane geometry primitives: points, sizes, and axis-aligned rectangles.

pub mod plane;
