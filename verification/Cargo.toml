[package]
name = "vast7_engine"
version = "0.1.0"
edition = "2021"
publish = false

[dependencies]
bytemuck = { version = "1", features = ["derive"] }
wgpu = "23"
winit = "0.30"
egui = "0.29"
glam = "0.29"
pollster = "0.4"
env_logger = "0.11"
