[package]
name = "cardprobe"
version = "0.1.0"
edition = "2021"
publish = false

[dependencies]
pcsc = "*"
serde = { version = "*", features = ["derive"] }
serde_json = "*"
