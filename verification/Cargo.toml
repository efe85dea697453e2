[package]
name = "steamguard"
version = "0.1.0"
edition = "2021"
publish = false

[dependencies]
serde_json = "1"
cookie = "0.16"
reqwest = { version = "0.11", default-features = false, features = ["blocking", "json"] }
secrecy = { version = "0.8", features = ["serde"] }
zeroize = { version = "1", features = ["derive"] }
serde = { version = "1", features = ["derive"] }
anyhow = "1"
log = "0.4"
