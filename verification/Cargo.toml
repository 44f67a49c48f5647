[package]
name = "render_core"
version = "0.1.0"
edition = "2021"
publish = false

[dependencies]
image = "*"
anyhow = "*"
bytemuck = { version = "*", features = ["derive"] }
nalgebra = "*"
pollster = "*"
env_logger = "*"
wgpu = "0.12"
winit = "0.26"
