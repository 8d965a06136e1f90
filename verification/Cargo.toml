[package]
name = "cloudformatious"
version = "0.1.0"
edition = "2021"
publish = false

[dependencies]
aws-config = "*"
aws-sdk-cloudformation = "*"
aws-sdk-sts = "*"
serde_json = "*"
tokio = { version = "*", features = ["time"] }
