[package]
name = "windshield_rs"
version = "0.1.0"
edition = "2021"
publish = false

[dependencies]
tokio = { version = "*", default-features = false, features = ["rt", "macros"] }
tracing-subscriber = "*"
wgpu = "*"
winit = "*"
