[package]
name = "rabbitmq_messages_management"
version = "0.1.0"
edition = "2021"
publish = false

[dependencies]
base64 = "0.22"
serde = { version = "1", features = ["derive"] }
serde_json = "1"
isahc = "1"
dotenv = "0.15"
log = "0.4"
rocket = { version = "0.5", features = ["json"] }
