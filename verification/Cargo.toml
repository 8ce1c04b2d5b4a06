[package]
name = "voxel_march"
version = "0.1.0"
edition = "2021"
publish = false

[dependencies]
bytemuck = { version = "1", features = ["derive"] }
rand = "0.9"
glam = { version = "*", features = ["bytemuck"] }
wgpu = "*"
winit = "0.30"
pollster = "*"
tokio = { version = "1", features = ["rt", "rt-multi-thread", "macros"] }
env_logger = "*"
fontdue = "*"
image = { version = "*", default-features = false, features = ["png"] }
