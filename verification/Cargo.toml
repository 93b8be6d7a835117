[package]
name = "di_migration"
version = "0.1.0"
edition = "2021"
publish = false

[dependencies]
flate2 = "=1.1.10"
ruzstd = "=0.9.1"
uuid = { version = "=1.29.0", features = ["v4", "serde"] }
axum = "=0.8.9"
bytes = "=1.12.1"
serde = { version = "=1.0.229", features = ["derive"] }
serde_json = "=1.0.154"
serde_bytes = "=0.11.19"
thiserror = "=2.0.21"
anyhow = "=1.0.104"
async-trait = "=0.1.92"
tokio = { version = "=1.54.1", features = ["full"] }
tracing = "=0.1.44"
tracing-subscriber = { version = "=0.3.23", features = ["env-filter"] }
clap = { version = "=4.6.7", features = ["derive", "env"] }
reqwest = { version = "=0.12.28", default-features = false, features = ["blocking", "json", "rustls-tls"] }
aws-config = { version = "=1.13.0", features = ["behavior-version-latest"] }
aws-sdk-dynamodb = "=1.136.0"
aws-sdk-s3 = { version = "=1.157.0", default-features = false, features = ["rt-tokio"] }
aws-sdk-sqs = "=1.119.0"
pontifex = { version = "=3.1.0", default-features = false, features = ["client", "server"] }
telemetry-batteries = { version = "=0.4.1", features = ["axum"] }
