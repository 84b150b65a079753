[package]
name = "render_engine"
version = "0.1.0"
edition = "2021"
publish = false

[dependencies]
wgpu = { version = "0.19", default-features = false, features = ["wgsl"] }
futures = { version = "0.3", default-features = false, features = ["executor"] }
env_logger = { version = "0.10", default-features = false }
image = { version = "0.24", default-features = false, features = ["png"] }
bytemuck = "1"
