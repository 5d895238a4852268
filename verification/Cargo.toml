[package]
name = "k8s_controller"
version = "0.12.0"
edition = "2021"
publish = false

[dependencies]
async-trait = "0.1"
futures = "0.3"
json-patch = "*"
k8s-openapi = { version = "*", features = ["v1_34"] }
kube = { version = "*", default-features = false, features = ["client"] }
kube-runtime = "*"
rand = "0.9"
serde = { version = "1", features = ["derive"] }
serde_json = "1"
tokio = { version = "1", features = ["macros", "rt", "time"] }
tracing = "0.1"
