[package]
name = "pollbot"
version = "0.1.0"
edition = "2021"
publish = false

[dependencies]
serde_json = "1"
ed25519-dalek = "=1.0.1"

[dev-dependencies]
hex = "0.4"
