[package]
name = "channel_nest"
version = "0.1.0"
edition = "2021"
publish = false

[dependencies]
url = "=2.5.8"
form_urlencoded = "=1.2.2"
base64 = "=0.22.1"
chrono = { version = "=0.4.45", features = ["serde"] }
serde = { version = "=1.0.229", features = ["derive"] }
serde_json = "=1.0.154"
uuid = { version = "=1.29.0", features = ["v4"] }
reqwest = { version = "=0.12.28", default-features = false, features = ["json", "rustls-tls"] }
tokio = { version = "=1.54.1", features = ["rt-multi-thread", "macros", "time", "net", "io-util"] }
rusqlite = { version = "=0.31.0", features = ["bundled"] }
