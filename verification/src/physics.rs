//! The particle factory.

pub mod particle;

pub use particle::{
    create_test_particles, generate_grid, position_bounds, Bounds, Channel, Color, Particle,
    Position,
};
