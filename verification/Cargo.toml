[package]
name = "frame_uniform"
version = "0.1.0"
edition = "2021"
publish = false

[dependencies]
pollster = "=0.2.5"
wgpu = "0.13"
winit = "=0.27.5"
