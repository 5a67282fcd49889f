[package]
name = "x_cli"
version = "0.1.6"
edition = "2021"
publish = false

[dependencies]
aes-gcm = "0.10"
axum = "0.7"
base64 = "0.22"
blake3 = "1"
chrono = "0.4"
clap = { version = "4", features = ["derive"] }
clipboard = "0.5"
dialoguer = "0.11"
dirs = "5"
hex = "0.4"
owo-colors = "4"
rand = "0.8"
reqwest = { version = "0.12", default-features = false, features = ["blocking", "json"] }
self_update = "*"
serde = { version = "1", features = ["derive"] }
serde_json = "1"
sled = "0.34"
tokio = { version = "1", features = ["full"] }
