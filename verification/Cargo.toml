[package]
name = "theater_control"
version = "0.1.0"
edition = "2021"
publish = false

[dependencies]
tauri = { version = "2", default-features = false }
tauri-plugin-log = "2"
tauri-plugin-window-state = "2"
tokio = { version = "1", features = ["sync", "time", "process"] }
serde_json = "1"
log = "0.4"
