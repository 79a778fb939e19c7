[package]
name = "expressone"
version = "0.1.0"
edition = "2021"
publish = false

[dependencies]
anyhow = "1"
clap = { version = "4", features = ["derive"] }
env_logger = "0.11"
futures = "0.3"
log = "0.4"
r2r = "0.9"
serde = { version = "1", features = ["derive"] }
serde_json = "1"
socketcan = "3"
tungstenite = "0.26"
