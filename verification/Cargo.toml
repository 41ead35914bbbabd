[package]
name = "graphgate_k8s"
version = "0.1.0"
edition = "2021"
publish = false

[dependencies]
anyhow = "*"
k8s-openapi = { version = "*", features = ["latest"] }
kube = "*"
tokio = { version = "*", features = ["macros", "rt-multi-thread"] }
tracing = "*"
