[package]
name = "gpu_device"
version = "0.1.0"
edition = "2021"
publish = false

[dependencies]
ipc-channel = "*"
serde = { version = "*", features = ["derive"] }
