[package]
name = "process_supervisor"
version = "0.1.0"
edition = "2021"
publish = false

[dependencies]
chrono = "*"
actix-web = "*"
aws-config = "*"
aws-sdk-s3 = "*"
serde_json = "*"
