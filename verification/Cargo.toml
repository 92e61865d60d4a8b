[package]
name = "clipboard_history"
version = "0.1.0"
edition = "2021"
publish = false

[dependencies]
chrono = "=0.4.45"
clipboard = "=0.5.0"
iced = { version = "=0.10.0", default-features = false, features = ["tokio"] }
