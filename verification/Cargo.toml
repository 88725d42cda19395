[package]
name = "whispertray"
version = "0.1.0"
edition = "2021"
publish = false

[dependencies]
regex = "1"
chrono = { version = "0.4", features = ["serde"] }
uuid = { version = "1", features = ["v4"] }
hound = "3"
directories = "5"
serde = { version = "1", features = ["derive"] }
serde_json = "1"
log = "0.4"
env_logger = "0.11"
async-trait = "0.1"
tokio = { version = "1", features = ["full"] }
reqwest = { version = "0.12", features = ["json", "multipart"] }
keyring = "2"
whisper-rs = "0.14"
