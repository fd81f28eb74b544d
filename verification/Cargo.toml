[package]
name = "piggyback"
version = "0.1.0"
edition = "2021"
publish = false

[dependencies]
tokio = { version = "*", features = ["rt", "macros", "net", "time", "io-util"] }
argh = "*"
signal-hook = "*"
serde_json = "*"
kube = { version = "*", features = ["runtime", "ws"] }
k8s-openapi = { version = "*", features = ["latest"] }
