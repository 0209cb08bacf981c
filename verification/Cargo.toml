[package]
name = "cube_engine"
version = "0.1.0"
edition = "2021"
publish = false

[dependencies]
bytemuck = "=1.25.2"
glam = "=0.30.10"
pollster = "=0.4.0"
wgpu = "=26.0.1"
