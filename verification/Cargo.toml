[package]
name = "mc_server_wrapper"
version = "0.1.0"
edition = "2021"
publish = false

[dependencies]
anyhow = "1"
axum = "0.6"
chrono = "0.4"
directories = "5"
flate2 = "1"
log = "0.4"
pretty_env_logger = "0.5"
serde = { version = "1", features = ["derive"] }
serde_yaml = "0.9"
tar = "0.4"
tokio = { version = "1", features = ["full"] }
