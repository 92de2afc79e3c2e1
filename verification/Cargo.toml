[package]
name = "bigbrother"
version = "0.1.0"
edition = "2021"
publish = false

[dependencies]
anyhow = "*"
chrono = "*"
clap = { version = "*", features = ["derive"] }
crossbeam-channel = "*"
csv = "*"
parking_lot = "*"
rdev = "*"
serde = { version = "*", features = ["derive"] }
serde_json = "*"
