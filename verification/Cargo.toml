[package]
name = "chassis"
version = "0.1.0"
edition = "2021"
publish = false

[dependencies]
regex = "=1.13.1"
uuid = { version = "=1.29.0", features = ["v4"] }
handlebars = "=4.5.0"
serde_json = "=1.0.154"
serde_yaml = "=0.9.34"
k8s-openapi = { version = "=0.20.0", features = ["v1_26"] }
prost-types = "=0.12.6"
actix-web = "4"
actix-files = "0.6"
actix-multipart = "0.6"
kube = { version = "0.87", features = ["runtime"] }
tokio = { version = "1", features = ["full"] }
log = "0.4"
fern = { version = "0.6", features = ["colored"] }
chrono = "0.4"
serde = { version = "1", features = ["derive"] }
anyhow = "1"
axum = "0.7"
tonic = "0.11"
tonic-health = "0.11"
tonic-reflection = "0.11"
prost = "=0.12.6"
bytes = "1"
prometheus = "0.13"
lazy_static = "1"
tracing = "0.1"
tracing-subscriber = { version = "0.3", features = ["env-filter", "json"] }
pyo3 = { version = "0.20", features = ["auto-initialize"] }
config = { version = "0.13", default-features = false }
serde-aux = "4"
