//! Shape primitives for 2D vector graphics.
//!
//! Each shape (rectangle, circle, ellipse, polygon) is a declarative
//! description that can be turned into a [`path::Path`]: an ordered
//! collection of contours made of exact integer-coordinate primitives,
//! ready to be handed to a downstream tessellator.

pub mod path;
pub mod shapes;
