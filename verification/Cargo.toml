[package]
name = "recognition_relay"
version = "0.1.0"
edition = "2021"
publish = false

[dependencies]
mime = "*"
url = "*"
serde_json = "*"
serde = { version = "*", features = ["derive"] }
actix-web = "*"
actix-cors = "*"
cloudevents-sdk = { version = "*", features = ["actix"] }
env_logger = "*"
envconfig = "*"
log = "*"
reqwest = { version = "*", default-features = false, features = ["json"] }
anyhow = "*"
