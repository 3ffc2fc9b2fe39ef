[package]
name = "movie_alert"
version = "0.1.0"
edition = "2021"
publish = false

[dependencies]
serde = { version = "=1.0.229", features = ["derive"] }
serde_json = "=1.0.154"
log = "0.3"
env_logger = "0.4"
tokio-core = "=0.1.18"
