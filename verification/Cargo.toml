[package]
name = "tgp_escrow"
version = "0.1.0"
edition = "2021"
publish = false

[dependencies]
serde_json = { version = "=1.0.154", features = ["preserve_order"] }
serde = { version = "=1.0.229", features = ["derive"] }
anyhow = "=1.0.104"
thiserror = "=1.0.69"
async-trait = "=0.1.92"
axum = "=0.7.9"
tokio = { version = "=1.54.1", features = ["full"] }
tracing = "=0.1.44"
tracing-subscriber = { version = "=0.3.23", features = ["env-filter"] }
