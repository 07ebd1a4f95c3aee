[package]
name = "operator_host"
version = "0.1.0"
edition = "2021"
publish = false

[dependencies]
anyhow = "1"
chrono = "0.4"
dashmap = "6"
futures = "0.3"
http = "1"
k8s-openapi = { version = "0.25", features = ["latest"] }
kube = { version = "1", default-features = false, features = ["client", "runtime", "derive"] }
schemars = "0.8"
serde = { version = "1", features = ["derive"] }
serde_json = "1"
serde_yml = "*"
thiserror = "2"
tokio = { version = "1", features = ["full"] }
tracing = "0.1"
tracing-subscriber = "0.3"
wasmtime = "35"
wasmtime-wasi = "35"
