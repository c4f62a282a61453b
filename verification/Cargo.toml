[package]
name = "pessoas_api"
version = "0.1.0"
edition = "2021"
publish = false

[dependencies]
actix-web = "=4.18.1"
actix-web-validator = "=7.0.0"
chrono = { version = "=0.4.45", default-features = false, features = ["std"] }
serde = { version = "=1.0.229", features = ["derive"] }
serde_derive = "=1.0.229"
serde_json = "=1.0.154"
uuid = { version = "=1.29.0", features = ["v4"] }
validator = "=0.20.0"
