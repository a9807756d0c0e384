[package]
name = "speech_relay"
version = "0.1.0"
edition = "2021"
publish = false

[dependencies]
async-nats = "*"
bytes = "1"
chrono = "0.4"
env_logger = "*"
futures-util = "0.3"
log = "0.4"
reqwest = "*"
serde = { version = "1", features = ["derive"] }
serde_json = "1"
tokio = { version = "1", features = ["full"] }
tonic = "*"
