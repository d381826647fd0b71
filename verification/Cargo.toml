[package]
name = "pim_tomato"
version = "0.1.0"
edition = "2021"
publish = false

[dependencies]
serde_json = "=1.0.154"
tauri = { version = "2", default-features = false, features = ["wry", "tray-icon", "image-png"] }
