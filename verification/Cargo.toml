[package]
name = "nats-agent"
version = "0.1.0"
edition = "2021"
publish = false

[dependencies]
anyhow = "=1.0.104"
async-nats = "=0.51.0"
axum = "=0.8.9"
chrono = "=0.4.45"
clap = { version = "=4.6.7", features = ["derive", "env"] }
futures = "=0.3.34"
getrandom = "=0.4.3"
humantime = "=2.4.0"
once_cell = "=1.21.4"
opentelemetry = { version = "=0.27.1", features = ["metrics"] }
opentelemetry-otlp = { version = "=0.27.0", features = ["metrics", "grpc-tonic"] }
opentelemetry_sdk = { version = "=0.27.1", features = ["metrics", "rt-tokio", "spec_unstable_metrics_views"] }
serde = { version = "=1.0.229", features = ["derive"] }
serde_json = "=1.0.154"
sysinfo = "=0.40.1"
tokio = { version = "=1.54.1", features = ["full"] }
tracing = "=0.1.44"
tracing-subscriber = "=0.3.23"
uuid = { version = "=1.29.0", features = ["v4"] }
