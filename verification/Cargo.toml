[package]
name = "notchrider"
version = "0.1.0"
edition = "2021"
publish = false

[dependencies]
objc = "0.2"
rusb = "0.9"
serde = { version = "1", features = ["derive"] }
tauri = { version = "2", default-features = false, features = ["wry"] }
