[package]
name = "atac"
version = "0.1.0"
edition = "2021"
publish = false

[dependencies]
anyhow = "*"
chrono = "*"
clap = { version = "*", features = ["derive"] }
parking_lot = "*"
ratatui = "*"
reqwest = { version = "*", default-features = false }
rumqttc = "*"
rustls-native-certs = "*"
serde = { version = "*", features = ["derive"] }
strum = { version = "*", features = ["derive"] }
thiserror = "*"
tokio = { version = "*", features = ["full"] }
tokio-util = "*"
tracing = "*"

[dev-dependencies]
serde_json = "*"
