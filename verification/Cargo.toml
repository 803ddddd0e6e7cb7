[package]
name = "sms_groups"
version = "0.1.0"
edition = "2021"
publish = false

[dependencies]
url = "2"
bson = "2"
anyhow = "1"
tokio = { version = "1", features = ["macros", "rt-multi-thread"] }
serde = { version = "1", features = ["derive"] }
serde_json = "1"
serde_yaml = "0.9"
jwt = "0.16"
hmac = "0.12"
sha2 = "0.10"
reqwest = { version = "0.11", default-features = false, features = ["rustls-tls"] }
mongodb = "2"
poem = "*"
poem-openapi = { version = "*", features = ["swagger-ui"] }
futures = "0.3"
tracing = "0.1"
tracing-subscriber = "0.3"
tracing-appender = "0.2"
tracing-panic = "0.1"
