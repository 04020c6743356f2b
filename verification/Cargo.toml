[package]
name = "tgbot"
version = "0.1.0"
edition = "2021"
publish = false

[dependencies]
frankenstein = { version = "*", features = ["client-ureq"] }
lambda_runtime = "*"
serde = { version = "1", features = ["derive"] }
serde_json = "1"
tokio = { version = "1", features = ["macros", "rt-multi-thread"] }
aws-config = { version = "1", features = ["behavior-version-latest"] }
aws-sdk-dynamodb = "1"
lazy_static = "1"
