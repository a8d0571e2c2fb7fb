[package]
name = "signcore"
version = "0.1.0"
edition = "2021"
publish = false

[dependencies]
base58 = "0.2"
base64 = "0.21"
ed25519-dalek = "=1.0.1"
rand = "0.7"
serde = { version = "1", features = ["derive"] }
serde_json = "1"
axum = "0.7"
tokio = { version = "1", features = ["full"] }
