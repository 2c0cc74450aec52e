[package]
name = "tatsumi_exporter"
version = "0.1.0"
edition = "2021"
publish = false

[dependencies]
anyhow = "1"
axum = "0.8"
bollard = "0.19"
dotenvy = "0.15"
procfs = "0.17"
prometheus = { version = "0.14", default-features = false }
tokio = { version = "1", features = ["macros", "net", "rt-multi-thread"] }
