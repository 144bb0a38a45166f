[package]
name = "common_lib"
version = "0.1.0"
edition = "2021"
publish = false

[dependencies]
aws-config = { version = "1", default-features = false, features = ["rt-tokio"] }
aws-sdk-secretsmanager = { version = "1", default-features = false, features = ["rt-tokio"] }
bson = "2"
chrono = "0.4"
hex = "0.4"
phonenumber = "0.3"
rand = "0.9"
reqwest = { version = "0.12", features = ["json"] }
rocket = { version = "0.5", features = ["json"] }
rocket_okapi = "0.9"
serde = { version = "1", features = ["derive"] }
serde_json = "1"
tokio = { version = "1", features = ["sync"] }
tracing = "0.1"
uuid = { version = "1", features = ["v4"] }
