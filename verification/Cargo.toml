[package]
name = "voicekey"
version = "0.1.0"
edition = "2021"
publish = false

[dependencies]
serde_json = "=1.0.151"
image = "=0.25.10"
anyhow = "=1.0.104"
