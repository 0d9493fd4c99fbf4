[package]
name = "audio_multisample"
version = "0.1.0"
edition = "2021"
publish = false

[dependencies]
anyhow = "1"
cpal = "0.14"
midir = "0.9"
serde = { version = "1", features = ["derive"] }
thiserror = "1"
