[package]
name = "audio_host"
version = "0.1.0"
edition = "2021"
publish = false

[dependencies]
anyhow = "1"
chrono = "0.4"
cpal = "0.15"
ctrlc = "3"
env_logger = "0.10"
log = "0.4"
ringbuf = "0.3"
serde = { version = "1", features = ["derive"] }
serde_json = "1"
