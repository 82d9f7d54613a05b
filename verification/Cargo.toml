[package]
name = "phys_engine"
version = "0.1.0"
edition = "2021"
publish = false

[dependencies]
env_logger = { version = "=0.11.11", default-features = false }
log = "0.4"
winit = { version = "=0.29.15", default-features = false, features = ["x11", "rwh_06"] }
