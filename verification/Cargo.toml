[package]
name = "sqs_monitor"
version = "0.1.0"
edition = "2021"
publish = false

[dependencies]
anyhow = "1"
aws-config = "*"
aws-sdk-sqs = "*"
chrono = "0.4"
crossterm = "*"
ratatui = "*"
tokio = { version = "1", features = ["macros", "rt-multi-thread"] }
