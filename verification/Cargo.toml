[package]
name = "yomiage"
version = "0.1.0"
edition = "2021"
publish = false

[dependencies]
regex = "1.13"
regex-syntax = "0.8"
once_cell = "1"
serde = { version = "1", features = ["derive"] }
serde_json = "1"
anyhow = "1"
thiserror = "2"
async-trait = "0.1"
dashmap = "6"
tokio = { version = "1", features = ["full"] }
tracing = "0.1"
tracing-subscriber = { version = "0.3", features = ["env-filter", "json"] }
reqwest = { version = "0.12", default-features = false, features = ["json", "rustls-tls"] }
rustls = "0.23"
serenity = { version = "0.12", default-features = false, features = ["builder", "cache", "client", "gateway", "http", "model", "utils", "rustls_backend"] }
songbird = { version = "0.5", features = ["builtin-queue", "receive"] }
