[package]
name = "vbulletin_bot"
version = "0.1.0"
edition = "2021"
publish = false

[dependencies]
reqwest = { version = "0.11", features = ["blocking", "multipart"] }
serde_json = "1.0"
