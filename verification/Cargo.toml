[package]
name = "archicomm"
version = "0.2.0"
edition = "2021"
publish = false

[dependencies]
chrono = { version = "0.4", features = ["serde"] }
dirs = "*"
env_logger = "*"
log = "0.4"
serde = { version = "1", features = ["derive"] }
serde_json = "1"
tauri = { version = "*", default-features = false }
tempfile = "3"
thiserror = "*"
tokio = { version = "1", features = ["rt"] }
uuid = { version = "1", features = ["v4"] }
