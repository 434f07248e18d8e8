[package]
name = "lambda_http"
version = "0.7.0"
edition = "2021"
publish = false

[dependencies]
aws_lambda_events = "0.7"
base64 = "0.13"
form_urlencoded = "1"
http = "0.2"
lambda_runtime = "0.7"
serde = { version = "1", features = ["derive"] }
serde_json = "1"
