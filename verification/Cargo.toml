[package]
name = "splitwise_sync"
version = "0.1.0"
edition = "2021"
publish = false

[dependencies]
anyhow = "*"
axum = "*"
chrono = "*"
clap = { version = "*", features = ["derive", "env"] }
ed25519-compact = "*"
glob = "*"
hex = "*"
serde = { version = "*", features = ["derive"] }
serde_json = "*"
splitwise = "*"
tokio = { version = "*", features = ["full"] }
tracing = "*"
tracing-subscriber = { version = "*", features = ["env-filter"] }
twilight-http = "*"
twilight-model = "*"
