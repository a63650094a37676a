[package]
name = "s3_stream"
version = "0.1.0"
edition = "2021"
publish = false

[dependencies]
aws-config = { version = "*", features = ["behavior-version-latest"] }
aws-sdk-s3 = "*"
aws-smithy-types = "*"
aws-smithy-runtime-api = "*"
tokio = { version = "*", features = ["rt", "net", "time"] }
thiserror = "*"
