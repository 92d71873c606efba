[package]
name = "cellgrid"
version = "0.1.0"
edition = "2021"
publish = false

[dependencies]
wgpu = "0.16"
winit = "0.28"
bytemuck = { version = "1", features = ["derive"] }
env_logger = "0.10"
anyhow = "1"
