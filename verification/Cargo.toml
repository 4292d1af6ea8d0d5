[package]
name = "wara_backend"
version = "0.1.0"
edition = "2021"
publish = false

[dependencies]
anyhow = "=1.0.104"
axum = "=0.8.9"
axum-valid = "=0.25.0"
base64 = "=0.22.1"
serde = { version = "=1.0.229", features = ["derive"] }
sha2 = "=0.10.9"
toasty = { version = "=0.11.0", features = ["postgresql"] }
tokio = { version = "=1.54.1", features = ["full"] }
tokio-postgres = "=0.7.18"
tracing = "=0.1.44"
tracing-subscriber = { version = "=0.3.23", features = ["json", "env-filter"] }
utoipa = { version = "=5.5.0", features = ["uuid"] }
uuid = { version = "=1.29.0", features = ["v7", "serde"] }
validator = { version = "=0.20.0", features = ["derive"] }
