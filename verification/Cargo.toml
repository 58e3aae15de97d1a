[package]
name = "sphere_renderer"
version = "0.1.0"
edition = "2021"
publish = false

[dependencies]
anyhow = "1"
bevy_ecs = { version = "0.15", default-features = false }
bytemuck = { version = "1", features = ["derive"] }
glam = { version = "0.29", features = ["bytemuck"] }
pollster = "0.4"
wgpu = "23"
winit = { version = "0.30", default-features = false, features = ["rwh_06", "x11"] }
