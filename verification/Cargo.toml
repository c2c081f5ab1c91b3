[package]
name = "ecs_sd"
version = "0.1.0"
edition = "2021"
publish = false

[dependencies]
uuid = { version = "=1.29.0", features = ["v5"] }
url = "=2.5.8"
reqwest = { version = "=0.12.28", default-features = false, features = ["stream"] }
serde = { version = "=1.0.229", features = ["derive"] }
serde_json = "=1.0.154"
serde_urlencoded = "=0.7.1"
axum = "=0.8.9"
tokio = { version = "=1.54.1", features = ["full"] }
tracing = "=0.1.44"
tracing-subscriber = { version = "=0.3.23", features = ["json", "env-filter"] }
clap = { version = "=4.6.7", features = ["derive", "env"] }
humantime = "=2.4.0"
prometheus = "=0.14.0"
rand = "=0.10.3"
chitchat = "=0.13.0"
utoipa = "=5.5.0"
thiserror = "=2.0.21"
aws-config = "=1.13.0"
aws-sdk-ecs = "=1.156.0"
aws-sdk-sts = "=1.124.0"
