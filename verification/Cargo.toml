[package]
name = "mavoice"
version = "0.1.0"
edition = "2021"
publish = false

[dependencies]
base64 = "=0.22.1"
hound = "=3.5.1"
serde_json = "=1.0.154"
log = "=0.4.34"
env_logger = "=0.11.11"
cpal = "=0.18.2"
futures-util = "=0.3.34"
tokio = { version = "=1.54.1", features = ["rt-multi-thread", "sync", "macros", "time", "net"] }
tokio-tungstenite = { version = "=0.30.0", features = ["rustls-tls-webpki-roots"] }
serde = { version = "1", features = ["derive"] }
toml = "0.8"
dirs = "5"
reqwest = { version = "0.12", default-features = false, features = ["rustls-tls", "multipart"] }
rusqlite = "0.32"
