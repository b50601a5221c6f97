[package]
name = "openpx"
version = "0.1.0"
edition = "2021"
publish = false

[dependencies]
serde = { version = "=1.0.229", features = ["derive"] }
serde_json = "=1.0.154"
chrono = "=0.4.45"
flume = "=0.11.1"
tokio = { version = "=1.54.1", features = ["rt-multi-thread", "macros", "sync", "time"] }
futures = "=0.3.34"
tokio-tungstenite = "=0.21.0"
tracing = "=0.1.44"
metrics = "=0.23.1"
uuid = { version = "=1.29.0", features = ["v4"] }
reqwest = { version = "=0.12.28", default-features = false, features = ["json", "rustls-tls"] }
async-trait = "=0.1.92"
hex = "=0.4.3"
ethers = { version = "2", default-features = false }
tokio-stream = { version = "0.1", features = ["sync"] }
