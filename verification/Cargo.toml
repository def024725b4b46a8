[package]
name = "range_transform"
version = "0.1.0"
edition = "2021"
publish = false

[dependencies]
http = "=1.5.0"
aws-config = { version = "=1.12.0", features = ["behavior-version-latest"] }
aws-types = "=1.6.0"
aws_lambda_events = "=1.2.1"
aws-sdk-s3 = "=1.152.0"
aws-smithy-types = "=1.9.0"
bytes = "=1.12.1"
lambda_runtime = "=1.5.0"
reqwest = { version = "=0.12.28", default-features = false, features = ["rustls-tls"] }
tokio = { version = "=1.54.1", features = ["macros", "rt-multi-thread"] }
tracing = "=0.1.44"
tracing-subscriber = "=0.3.23"
