[package]
name = "unique_service_selector"
version = "0.1.0"
edition = "2021"
publish = false

[dependencies]
k8s-openapi = { version = "=0.28.0", features = ["v1_36"] }
kubewarden-policy-sdk = "=0.17.3"
serde = { version = "=1.0.229", features = ["derive"] }
serde_json = "=1.0.154"
