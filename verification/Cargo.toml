[package]
name = "synapse"
version = "0.1.0"
edition = "2021"
publish = false

[dependencies]
axum = "*"
http = "*"
redis = { version = "*", features = ["tokio-comp"] }
secrecy = "*"
serde = { version = "*", features = ["derive"] }
serde_json = "*"
tokio = { version = "*", features = ["sync", "rt", "macros"] }
tracing = "*"
