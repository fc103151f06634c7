[package]
name = "clipboard_syncer"
version = "0.1.0"
edition = "2021"
publish = false

[dependencies]
anyhow = "*"
backoff = "*"
local-ip-address = "*"
serde = { version = "*", features = ["derive"] }
serde_json = "*"
