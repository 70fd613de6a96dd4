[package]
name = "nexo-plugin-telegram"
version = "0.3.0"
edition = "2021"
publish = false

[dependencies]
anyhow = "=1.0.104"
base64 = "=0.22.1"
serde = { version = "=1.0.229", features = ["derive"] }
serde_json = "=1.0.154"
serde_yaml = "=0.9.34"
once_cell = "=1.21.4"
tokio = { version = "=1.54.1", features = ["rt-multi-thread", "macros", "sync", "io-std", "io-util"] }
tracing = "=0.1.44"
tracing-subscriber = { version = "=0.3.23", features = ["env-filter", "fmt"] }
rustls = { version = "=0.23.46", default-features = false, features = ["ring", "std"] }
nexo-microapp-sdk = { version = "=0.1.20", features = ["plugin"] }
nexo-broker = "=0.1.6"
nexo-config = "=0.1.10"
