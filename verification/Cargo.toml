[package]
name = "codex_browser"
version = "0.1.0"
edition = "2021"
publish = false

[dependencies]
base64 = "0.22"
chrono = "=0.4.45"
clap = { version = "=4.6.7", features = ["derive"] }
http = "=1.5.0"
url = "=2.5.8"
uuid = { version = "=1.29.0", features = ["v4"] }
