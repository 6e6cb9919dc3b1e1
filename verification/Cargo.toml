[package]
name = "kernelia"
version = "0.1.0"
edition = "2021"
publish = false

[dependencies]
serde = { version = "=1.0.229", features = ["derive"] }
serde_json = "=1.0.154"
sha2 = "=0.10.9"
base64 = "=0.22.1"
ring = "=0.17.14"
hostname = "=0.4.2"
uuid = { version = "=1.29.1", features = ["v4"] }
chrono = "=0.4.45"
dirs = "=5.0.1"
log = "=0.4.35"
reqwest = { version = "0.12", default-features = false, features = ["json", "stream", "rustls-tls"] }
tokio = { version = "1", features = ["rt-multi-thread", "macros", "time", "sync"] }
rusqlite = { version = "0.32", features = ["bundled"] }
dotenvy = "0.15"
env_logger = "0.11"
futures-util = "0.3"
bytes = "1"
