[package]
name = "camera2d"
version = "0.1.0"
edition = "2021"
publish = false

[dependencies]
anyhow = "1"
bytemuck = { version = "1", features = ["derive"] }
env_logger = "0.11"
futures = "0.3"
log = "0.4"
nalgebra = { version = "0.33", features = ["convert-bytemuck"] }
wgpu = "26"
winit = "0.30"
