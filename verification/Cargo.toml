[package]
name = "tenant"
version = "0.1.0"
edition = "2021"
publish = false

[dependencies]
actix-cors = "0.7"
actix-web = "4"
async-nats = "*"
async-trait = "0.1"
chrono = "0.4"
env_logger = "0.11"
futures-util = "0.3"
mongodb = "3"
redis = { version = "0.27", features = ["tokio-comp"] }
serde = { version = "1", features = ["derive"] }
serde_json = "1"
tracing = "0.1"
