[package]
name = "pixiv_crawler"
version = "0.1.0"
edition = "2021"
publish = false

[dependencies]
futures = "0.3"
keyring = "2"
reqwest = { version = "0.11", default-features = false }
serde = { version = "1", features = ["derive"] }
serde_json = "1"
tokio = { version = "1", features = ["full"] }
