[package]
name = "audio_recorder"
version = "0.2.0"
edition = "2021"
publish = false

[dependencies]
cpal = "0.15"
hound = "3.5"
log = "0.4"
serde = { version = "1", features = ["derive"] }
