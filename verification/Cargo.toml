[package]
name = "wordclock"
version = "0.1.0"
edition = "2021"
publish = false

[dependencies]
time = { version = "0.3", features = ["local-offset"] }
iced = { version = "0.10", default-features = false, features = ["tokio"] }
