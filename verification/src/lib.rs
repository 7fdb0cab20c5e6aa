//! Escape-time fractal frames: viewport geometry, grayscale shading of
//! escape counts, and the view state that decides when a frame is stale.

pub mod context;
pub mod fractal;
pub mod geometry;
pub mod shade;
pub mod tally;
