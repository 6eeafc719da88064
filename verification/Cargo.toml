[package]
name = "app_broker"
version = "0.1.0"
edition = "2021"
publish = false

[dependencies]
jsonwebtoken = "9"
serde_json = "1"
axum = "0.6"
axum-login = "0.5"
axum-sessions = "0.5"
hyper = "0.14"
tokio = { version = "1", features = ["full"] }
tower-http = { version = "0.4", features = ["fs"] }
reqwest = { version = "0.11", default-features = false }
clap = { version = "4", features = ["derive", "env"] }
env_logger = "0.10"
lazy_static = "1"
rand = "0.8"
serde = { version = "1", features = ["derive"] }
log = "0.4"
