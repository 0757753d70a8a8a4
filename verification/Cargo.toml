[package]
name = "frontend"
version = "0.1.0"
edition = "2021"
publish = false

[dependencies]
base64 = "0.13"
serde_json = "1"
serde = { version = "1", features = ["derive"] }
uuid = "1"
chrono = "0.4"
rand = "0.5"
