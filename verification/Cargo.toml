[package]
name = "rendercore"
version = "0.1.0"
edition = "2021"
publish = false

[dependencies]
anyhow = "1"
ash = "0.38"
ash-window = "0.13"
env_logger = "0.11"
winit = { version = "0.29", default-features = false, features = ["x11", "rwh_06"] }
