[package]
name = "fathom"
version = "0.1.0"
edition = "2021"
publish = false

[dependencies]
bevy = { version = "0.15", default-features = false, features = ["bevy_asset"] }
bytemuck = "1"
env_logger = "0.11"
log = "0.4"
pollster = "0.3"
rand = "0.8"
wgpu = "22"
winit = "0.30"
