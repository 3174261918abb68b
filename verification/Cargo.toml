[package]
name = "navi_gateway"
version = "0.1.0"
edition = "2021"
publish = false

[dependencies]
serde_json = "1"
yaml-rust = "0.4"
serde = { version = "1", features = ["derive"] }
hyper = { version = "0.14", features = ["full"] }
hyper-tls = "0.5"
tokio = { version = "1", features = ["rt-multi-thread", "macros", "sync", "time"] }
futures = "0.3"
anyhow = "1"
redis = { version = "0.23", features = ["cluster"] }
