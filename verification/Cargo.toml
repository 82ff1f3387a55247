[package]
name = "artemis"
version = "0.1.0"
edition = "2021"
publish = false

[dependencies]
futures = "0.3"
telegram-bot = "0.7"
tokio = { version = "0.2", features = ["macros", "rt-threaded", "time"] }
