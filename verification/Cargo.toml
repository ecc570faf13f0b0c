[package]
name = "gertrud"
version = "0.1.0"
edition = "2021"
publish = false

[dependencies]
async-lock = "2"
async-trait = "0.1"
axum = { version = "0.6", features = ["ws"] }
dashmap = "5"
dotenvy = "0.15"
eyre = "0.6"
futures = "0.3"
mongodb = "2"
nanoid = "0.4"
redis = { version = "0.23", features = ["tokio-comp", "connection-manager"] }
reqwest = { version = "0.11", default-features = false, features = ["json", "rustls-tls"] }
serde = { version = "1", features = ["derive"] }
serde_json = "1"
tokio = { version = "1", features = ["full"] }
tracing = "0.1"
tracing-subscriber = "0.3"
