[package]
name = "moviebay"
version = "0.1.0"
edition = "2021"
publish = false

[dependencies]
bytes = "1"
hyper = { version = "0.14", features = ["full"] }
hyper-tls = "0.5"
regex = "1"
rusqlite = { version = "0.31", features = ["backup"] }
serde = { version = "1", features = ["derive"] }
serde_json = "1"
tokio = { version = "1", features = ["full"] }
toml = "0.8"
