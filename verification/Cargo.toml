[package]
name = "artifacts_mmo_api"
version = "0.1.0"
edition = "2021"
publish = false

[dependencies]
base64 = "*"
http = "*"
serde = { version = "*", features = ["derive"] }
serde_json = "*"
