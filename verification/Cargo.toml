[package]
name = "playht_rs"
version = "0.1.0"
edition = "2021"
publish = false

[dependencies]
serde_json = "*"
serde = { version = "*", features = ["derive"] }
reqwest = { version = "*", default-features = false, features = ["multipart", "json", "stream"] }
bytes = "*"
tokio = { version = "*", features = ["io-util"] }
tokio-stream = "*"
thiserror = "*"
