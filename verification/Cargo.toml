[package]
name = "btc_anchoring"
version = "0.1.0"
edition = "2021"
publish = false

[dependencies]
bitcoin = "0.32"
exonum = "*"
serde = { version = "1", features = ["derive"] }
serde_json = "1"
