//! Partial-redraw terminal rendering: the frame buffer model, the patch pass
//! that re-asserts cells drawn by an out-of-band compositor, the per-frame
//! decisions around the collision flag, and the input widget's geometry.
pub mod geometry;
pub mod buffer;
pub mod patch;
pub mod frame;
pub mod input;
