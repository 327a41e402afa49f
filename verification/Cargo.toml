[package]
name = "blockchain_handshake"
version = "0.1.0"
edition = "2021"
publish = false

[dependencies]
sha2 = "0.10"
rand = "0.8"
base64 = "0.21"
tokio = { version = "1", features = ["full"] }
clap = { version = "4", features = ["derive"] }
env_logger = "0.10"
anyhow = "1"
log = "0.4"
