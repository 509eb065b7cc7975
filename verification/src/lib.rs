//! Quick Sand: the particle grid of a point-sprite visualisation and the
//! decisions of the shell that draws it.
//!
//! Coordinates, colours and sizes are exact integers and ratios here; turning
//! them into the numbers a graphics device wants is left to the caller.

pub mod graphics;
pub mod physics;
