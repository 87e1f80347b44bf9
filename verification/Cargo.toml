[package]
name = "s3_client"
version = "0.1.0"
edition = "2021"
publish = false

[dependencies]
mime_guess = "*"
anyhow = "*"
aws-sdk-s3 = "*"
tokio = { version = "*", features = ["full"] }
tokio-stream = "*"
