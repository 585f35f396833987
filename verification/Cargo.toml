[package]
name = "b24_tool"
version = "0.1.0"
edition = "2021"
publish = false

[dependencies]
uuid = "=1.29.0"
serde = { version = "=1.0.229", features = ["derive"] }
serde_json = "=1.0.154"
serialport = { version = "=4.10.1", default-features = false }
log = "=0.4.35"
thiserror = "=1.0.69"
csv = "1"
chrono = "0.4"
env_logger = "0.11"
