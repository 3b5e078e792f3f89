[package]
name = "cube_viewer"
version = "0.1.0"
edition = "2021"
publish = false

[dependencies]
bytemuck = { version = "=1.25.2", features = ["derive"] }
glam = "=0.29.3"
pollster = "=1.0.1"
wgpu = "=0.20.1"
winit = "=0.30.13"
