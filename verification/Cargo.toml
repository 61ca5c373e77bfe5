[package]
name = "render_sandbox"
version = "0.1.0"
edition = "2021"
publish = false

[dependencies]
env_logger = "*"
wgpu = "24"
winit = "0.29"
