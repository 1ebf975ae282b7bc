[package]
name = "sticker_webhook"
version = "0.1.0"
edition = "2021"
publish = false

[dependencies]
reqwest = "=0.11.27"
serde = { version = "1", features = ["derive"] }
serde_json = "=1.0.154"
telegram-bot-api = "=0.1.2"
thiserror = "=2.0.21"
worker = "=0.8.7"
