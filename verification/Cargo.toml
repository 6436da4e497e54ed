[package]
name = "hyprdeck"
version = "0.1.0"
edition = "2021"
publish = false

[dependencies]
serde = { version = "=1.0.229", features = ["derive"] }
serde_json = "=1.0.154"
toml = "=0.8.23"
chrono = "=0.4.45"
tokio = { version = "=1.54.1", features = ["net", "io-util", "rt", "sync", "time", "macros", "process"] }
tracing = "=0.1.44"
thiserror = "*"
nix = { version = "*", features = ["net"] }
reqwest = { version = "0.12", default-features = false, features = ["json", "rustls-tls"] }
