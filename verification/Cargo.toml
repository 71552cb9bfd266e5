[package]
name = "taimen"
version = "0.1.0"
edition = "2021"
publish = false

[dependencies]
anyhow = "=1.0.104"
axum = { version = "=0.8.9", features = ["ws"] }
chrono = { version = "=0.4.45", features = ["serde"] }
clap = { version = "=4.6.7", features = ["derive"] }
dashmap = "=6.2.1"
dirs = "=7.0.0"
futures = "=0.3.34"
kaname = "=0.1.2"
serde = { version = "=1.0.229", features = ["derive"] }
serde_json = "=1.0.154"
shidou = "=0.1.11"
shikumi = "=0.1.1084"
soushi = "=0.1.1"
thiserror = "=2.0.21"
tokio = { version = "=1.54.1", features = ["full"] }
tower-http = { version = "=0.7.1", features = ["cors", "trace"] }
tracing = "=0.1.44"
tsunagu = { version = "=0.1.11", features = ["axum"] }
uuid = { version = "=1.29.0", features = ["v4", "serde"] }
