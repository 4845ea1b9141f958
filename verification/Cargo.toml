[package]
name = "tauri-plugin-bluetooth"
version = "0.1.0"
edition = "2021"
publish = false

[dependencies]
base64 = "0.22"
btleplug = "0.11"
log = "0.4"
serde = { version = "1", features = ["derive"] }
thiserror = "2"
tokio = { version = "1", features = ["sync", "time"] }
uuid = { version = "1", features = ["v4"] }
