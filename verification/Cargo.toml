[package]
name = "render_host"
version = "0.1.0"
edition = "2021"
publish = false

[dependencies]
env_logger = "0.10"
wgpu = "0.15"
winit = { version = "0.28", default-features = false, features = ["x11"] }
