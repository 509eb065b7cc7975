//! The renderer shell and the layout of the buffer it fills.

pub mod layout;
pub mod renderer;

pub use renderer::{Renderer, SurfaceSize};
