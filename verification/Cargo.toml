[package]
name = "soundstoic"
version = "0.1.0"
edition = "2021"
publish = false

[dependencies]
crossbeam-channel = "*"
dirs = "*"
serde = { version = "*", features = ["derive"] }
serde_json = "*"
