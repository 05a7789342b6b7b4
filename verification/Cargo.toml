[package]
name = "cubes"
version = "0.1.0"
edition = "2021"
publish = false

[dependencies]
image = "0.24"
cgmath = "0.18"
bytemuck = { version = "1", features = ["derive"] }
log = "0.4"
env_logger = "0.10"
pollster = "0.3"
rand = "0.9"
wgpu = "0.15"
winit = { version = "0.28", default-features = false, features = ["x11"] }
