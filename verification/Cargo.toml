[package]
name = "serving_bootstrap"
version = "0.1.0"
edition = "2021"
publish = false

[dependencies]
clap = { version = "*", features = ["derive", "env"] }
tokio = { version = "*", features = ["rt-multi-thread", "macros"] }
tracing = "*"
thiserror = "*"
serde_json = "*"
hf-hub = { version = "*", features = ["tokio"] }
