[package]
name = "quickwit"
version = "0.1.0"
edition = "2021"
publish = false

[dependencies]
anyhow = "1"
async-trait = "0.1"
byte-unit = { version = "4", features = ["serde"] }
rusoto_kinesis = { version = "0.47", default-features = false, features = ["rustls"] }
serde = { version = "1", features = ["derive"] }
serde_json = "1"
serde_yaml = "0.8"
tokio = { version = "1", features = ["sync", "time"] }
toml = "0.5"
tracing = "0.1"
