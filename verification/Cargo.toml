[package]
name = "ceph_rbd_metrics"
version = "0.1.0"
edition = "2021"
publish = false

[dependencies]
async-trait = "=0.1.92"
axum = "=0.7.9"
dotenv = "=0.15.0"
log = "=0.4.34"
prometheus-client = "=0.22.3"
reqwest = { version = "=0.11.27", default-features = false, features = ["json"] }
reqwest-middleware = "=0.2.5"
reqwest-retry = "=0.3.0"
reqwest-tracing = "=0.4.8"
retry-policies = "=0.2.1"
serde = { version = "=1.0.229", features = ["derive"] }
serde_json = "=1.0.154"
task-local-extensions = "=0.1.4"
thiserror = "=1.0.69"
tokio = { version = "=1.54.1", features = ["full"] }
tracing-subscriber = "=0.3.23"
url = "=2.5.8"
