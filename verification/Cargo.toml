[package]
name = "astrolog"
version = "0.1.0"
edition = "2021"
publish = false

[dependencies]
chrono = "=0.4.45"
open = "=5.4.5"
serde = { version = "=1.0.229", features = ["derive"] }
serde_json = "=1.0.154"
uuid = { version = "=1.29.0", features = ["serde"] }
webbrowser = "=1.2.5"
winapi = { version = "0.3", features = ["fileapi", "winnt"] }
