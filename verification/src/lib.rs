//! Marching-squares contouring over a grid of sign samples.
//!
//! Each grid cell carries four corner signs, packed into a 4-bit pattern;
//! a fixed 16-entry table maps the pattern to the contour segments drawn
//! inside the cell, and a time coordinate advances the field between frames.

pub mod clock;
pub mod contour;
pub mod grid;
pub mod pattern;
