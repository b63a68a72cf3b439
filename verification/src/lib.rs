//! Verified core of a small sprite scene: a textured image that plans its own
//! blits, and a pointer-driven button that recomputes its visual state on
//! every frame.

pub mod button;
pub mod color;
pub mod controls;
pub mod error;
pub mod geometry;
pub mod layout;
pub mod texture;
