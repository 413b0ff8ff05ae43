[package]
name = "slint-webview"
version = "0.1.0"
edition = "2021"
publish = false

[dependencies]
serde = { version = "1", features = ["derive"] }
serde_json = "1"
thiserror = "2"
raw-window-handle = "0.6"
wry = "*"
gtk = "0.18"
gdkx11 = "0.18"
x11rb = "*"
