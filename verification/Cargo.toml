[package]
name = "anotadoria"
version = "0.1.0"
edition = "2021"
publish = false

[dependencies]
cpal = "0.15"
futures-util = "0.3"
http = "1"
reqwest = { version = "0.12", default-features = false, features = ["json"] }
serde = { version = "1", features = ["derive"] }
serde_json = "1"
thiserror = "2"
tokio = { version = "1", features = ["rt-multi-thread", "macros", "sync"] }
tokio-tungstenite = "0.26"
toml = "0.8"
url = "2"
