[package]
name = "clipi"
version = "0.1.0"
edition = "2021"
publish = false

[dependencies]
blake3 = "1"
global-hotkey = "0.6"
fuzzy-matcher = "0.3"
image = { version = "0.25", default-features = false, features = ["png"] }
directories = "6"
chrono = "0.4"
eframe = { version = "0.31", default-features = false, features = ["glow", "x11", "default_fonts"] }
arboard = "3"
rusqlite = { version = "0.32", features = ["bundled"] }
serde = { version = "1", features = ["derive"] }
toml = "0.8"
raw-window-handle = "0.6"
windows-sys = { version = "0.59", features = ["Win32_Foundation", "Win32_UI_WindowsAndMessaging"] }
objc2 = "0.6"
objc2-app-kit = "0.3"
