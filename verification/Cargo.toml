[package]
name = "auth_pipeline"
version = "0.1.0"
edition = "2021"
publish = false

[dependencies]
base64 = "0.22"
http = "1"
tower-layer = "0.3"
tower-service = "0.3"
axum = "0.7"
async-trait = "0.1"
tokio = { version = "1", features = ["macros", "rt-multi-thread", "net"] }
tracing = "0.1"
tracing-subscriber = "0.3"
