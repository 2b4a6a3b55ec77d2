[package]
name = "render_state"
version = "0.1.0"
edition = "2021"
publish = false

[dependencies]
anyhow = "=1.0.104"
bytemuck = { version = "=1.25.2", features = ["derive"] }
cgmath = "=0.18.0"
env_logger = "=0.11.11"
pollster = "=0.4.0"
rand = "=0.8.8"
wgpu = "=0.20.1"
winit = "=0.30.13"
