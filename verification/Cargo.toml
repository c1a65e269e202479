[package]
name = "hubbub"
version = "0.1.0"
edition = "2021"
publish = false

[dependencies]
anyhow = "=1.0.104"
async-timer = "=0.7.4"
chrono = { version = "=0.4.45", default-features = false, features = ["std"] }
futures-util = { version = "=0.3.34", features = ["sink"] }
http = "=1.5.0"
log = "=0.4.34"
reqwest = { version = "=0.12.28", default-features = false, features = ["rustls-tls"] }
reqwest-websocket = "=0.5.1"
serde = { version = "=1.0.229", features = ["derive"] }
serde_json = { version = "=1.0.154", features = ["preserve_order"] }
serde_repr = "=0.1.21"
thiserror = "=2.0.21"
tokio = { version = "=1.54.1", features = ["rt-multi-thread", "macros", "sync", "time"] }
