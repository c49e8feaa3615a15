[package]
name = "vn2apk"
version = "0.1.0"
edition = "2021"
publish = false

[dependencies]
serde = { version = "=1.0.229", features = ["derive"] }
serde_json = "=1.0.154"
tauri = { version = "=2.12.5", default-features = false, features = ["wry"] }
tauri-plugin-store = "=2.5.0"
tokio = { version = "=1.54.1", features = ["process", "io-util", "macros", "rt", "fs"] }
which = "=8.0.6"
fs_extra = "=1.3.0"
