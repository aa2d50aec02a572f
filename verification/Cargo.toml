[package]
name = "chat_server"
version = "0.1.0"
edition = "2021"
publish = false

[dependencies]
base64 = "0.21"
bcrypt = "0.15"
chrono = "0.4"
mongodb = "2.8"
serde = { version = "1", features = ["derive"] }
rocket = { version = "0.5", features = ["json"] }
