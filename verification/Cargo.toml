[package]
name = "transcription_core"
version = "0.1.0"
edition = "2021"
publish = false

[dependencies]
anyhow = "*"
log = "*"
serde = { version = "*", features = ["derive"] }
parakeet-rs = "*"
