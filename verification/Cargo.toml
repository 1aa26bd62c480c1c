[package]
name = "garlemald"
version = "0.1.0"
edition = "2021"
publish = false

[dependencies]
flate2 = "=1.1.10"
md-5 = "=0.10.6"
base64 = "=0.22.1"
serde = { version = "=1.0.229", features = ["derive"] }
toml = "=0.8.23"
anyhow = "=1.0.104"
chrono = "=0.4.45"
serde_json = "1"
clap = { version = "4", features = ["derive"] }
tokio = { version = "1", features = ["net", "io-util", "rt", "sync"] }
