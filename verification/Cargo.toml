[package]
name = "epick"
version = "0.1.0"
edition = "2021"
publish = false

[dependencies]
anyhow = "1"
arboard = { version = "3", default-features = false }
dirs = "4"
serde = { version = "1", features = ["derive"] }
serde_json = "1"
serde_yaml = "0.8"
