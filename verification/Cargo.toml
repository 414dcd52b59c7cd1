[package]
name = "updater"
version = "0.1.0"
edition = "2021"
publish = false

[dependencies]
chrono = "0.4"
log = "0.4"
serde = { version = "1", features = ["derive"] }
tauri = { version = "2", default-features = false }
tauri-plugin-updater = { version = "2", default-features = false }
tokio = { version = "1", features = ["sync", "time"] }
