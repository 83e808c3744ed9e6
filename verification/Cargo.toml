[package]
name = "chat_browser"
version = "0.1.0"
edition = "2021"
publish = false

[dependencies]
tui = { version = "*", default-features = false, features = ["termion"] }
termion = "1.5"
