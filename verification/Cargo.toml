[package]
name = "mesh"
version = "0.1.0"
edition = "2021"
publish = false

[dependencies]
anyhow = "1"
bytes = "1"
chrono = "0.4"
dirs = "*"
futures-util = "0.3"
matrix-sdk = { version = "0.18", default-features = false, features = ["markdown"] }
opus = "*"
rustls = { version = "0.23", default-features = false, features = ["ring", "std"] }
serde = { version = "1", features = ["derive"] }
serde_json = "1"
thiserror = "*"
tokio = { version = "1", features = ["rt", "sync", "macros", "time"] }
toml = "*"
tracing = "0.1"
tracing-subscriber = "0.3"
