[package]
name = "crunchyroll"
version = "0.1.0"
edition = "2021"
publish = false

[dependencies]
serde_urlencoded = "=0.7.1"
serde = { version = "=1.0.229", features = ["derive"] }
serde_json = "=1.0.151"
chrono = { version = "=0.4.45", features = ["serde"] }
futures-util = "=0.3.34"
smart-default = "=0.7.1"
