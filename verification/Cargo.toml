[package]
name = "torrentino_core"
version = "0.1.0"
edition = "2021"
publish = false

[dependencies]
regex-lite = "=0.1.9"
serde = { version = "=1.0.229", features = ["derive"] }
serde_json = "=1.0.154"
thiserror = "=1.0.69"
tokio = { version = "=1.54.1", features = ["fs", "process", "io-util", "rt", "time"] }
sha2 = "=0.10.9"
md5 = "=0.7.0"
toml = "0.8"
figment = { version = "0.10", features = ["toml", "env"] }
