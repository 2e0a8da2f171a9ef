[package]
name = "voice_cloner"
version = "0.1.0"
edition = "2021"
publish = false

[dependencies]
chrono = "0.4"
serde = { version = "1", features = ["derive"] }
serde_json = "1"
thiserror = "*"
hound = "3"
reqwest = { version = "*", default-features = false, features = ["blocking", "json", "multipart"] }
tokio = { version = "1", features = ["full"] }
tokio-tungstenite = "*"
futures-util = "*"
tracing = "*"
tracing-subscriber = { version = "*", features = ["env-filter"] }
cpal = "*"
