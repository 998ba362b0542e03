[package]
name = "raytracer"
version = "0.1.0"
edition = "2021"
publish = false

[dependencies]
bytemuck = "=1.25.2"
pollster = "=1.0.1"
wgpu = { version = "=30.0.1", features = ["spirv"] }
winit = "=0.30.13"
