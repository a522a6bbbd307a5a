[package]
name = "webhook_pipeline"
version = "0.1.0"
edition = "2021"
publish = false

[dependencies]
lambda_http = "0.1"
lambda_runtime = "0.2"
log = "0.4"
simple_logger = "1"
serde = { version = "1", features = ["derive"] }
serde_json = "1"
