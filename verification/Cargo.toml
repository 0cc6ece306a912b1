[package]
name = "notifier"
version = "0.1.0"
edition = "2021"
publish = false

[dependencies]
futures = "*"
irc = { version = "*", default-features = false }
tokio = { version = "*", features = ["rt"] }
