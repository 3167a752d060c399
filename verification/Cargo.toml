[package]
name = "config_store"
version = "0.1.0"
edition = "2021"
publish = false

[dependencies]
serde = { version = "=1.0.229", features = ["derive"] }
serde_json = "=1.0.154"
whoami = "=1.6.1"
tauri = { version = "2", default-features = false }
