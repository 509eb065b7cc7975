[package]
name = "quick_sand"
version = "0.1.0"
edition = "2021"
publish = false

[dependencies]
bytemuck = { version = "1", features = ["derive"] }
env_logger = { version = "0.10", default-features = false }
log = "0.4"
pollster = "0.3"
winit = { version = "0.29", default-features = false, features = ["rwh_06", "x11"] }
