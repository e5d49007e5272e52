[package]
name = "clipboard_png"
version = "0.1.0"
edition = "2021"
publish = false

[dependencies]
image = { version = "0.25", default-features = false, features = ["bmp", "png"] }
log = "0.4"
serde = { version = "1", features = ["derive"] }
winapi = { version = "0.3", features = ["minwindef", "windef", "winuser"] }
