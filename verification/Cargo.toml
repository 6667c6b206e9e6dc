[package]
name = "overlay"
version = "0.1.0"
edition = "2021"
publish = false

[dependencies]
winit = "0.25"
winapi = { version = "0.3", features = ["winuser", "windef", "basetsd"] }
xcb = { version = "0.9", features = ["shape"] }
