[package]
name = "entity_core"
version = "0.1.0"
edition = "2021"
publish = false

[dependencies]
aws-config = { version = "*", default-features = false }
aws-sdk-dynamodb = { version = "*", default-features = false }
serde = { version = "*", features = ["derive"] }
serde_json = "*"
