[package]
name = "platform_classifier"
version = "0.1.0"
edition = "2021"
publish = false

[dependencies]
tauri = { version = "2", default-features = false }
tauri-plugin-os = { version = "2", default-features = false }
