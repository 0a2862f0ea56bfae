[package]
name = "bililive_core"
version = "0.1.0"
edition = "2021"
publish = false

[dependencies]
flate2 = "1"
md-5 = "0.10"
hmac = "0.12"
sha2 = "0.10"
base64 = "0.22"
serde_json = "1"
chrono = { version = "0.4", default-features = false, features = ["clock"] }
uuid = { version = "1", features = ["v4"] }
serde = { version = "1", features = ["derive"] }
reqwest = { version = "0.12", default-features = false, features = ["json"] }
tokio = { version = "1", features = ["rt-multi-thread", "macros", "time", "sync", "net", "io-util"] }
tokio-tungstenite = "0.24"
futures-util = "0.3"
tracing = "0.1"
anyhow = "1"

[dev-dependencies]
hex = "0.4"
