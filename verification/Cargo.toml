[package]
name = "greeter"
version = "0.1.0"
edition = "2021"
publish = false

[dependencies]
tauri = { version = "2", default-features = false, features = ["wry"] }
tauri-plugin-process = { version = "2", default-features = false }
tauri-plugin-store = { version = "2", default-features = false }
