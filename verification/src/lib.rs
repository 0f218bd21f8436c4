//! Presentation and input bridge between a fixed-resolution game engine and a
//! resizable host window: the aspect-preserving frame scaler, the translator
//! from host input events to engine input, and the frame pump that orders the
//! work of one redraw.

pub mod constants;
pub mod scaler;
pub mod dg_io;
pub mod engine;
pub mod pump;
pub mod cli;
