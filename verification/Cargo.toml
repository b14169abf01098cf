[package]
name = "blackbox_desktop"
version = "0.1.0"
edition = "2021"
publish = false

[dependencies]
serde = { version = "=1.0.229", features = ["derive"] }
tauri = { version = "=2.12.5", default-features = false }
tauri-plugin-autostart = "2"
tauri-plugin-global-shortcut = "2"
