[package]
name = "session_security"
version = "0.1.0"
edition = "2021"
publish = false

[dependencies]
actix-identity = "*"
actix-session = { version = "*", features = ["cookie-session"] }
actix-web = "4"
chrono = "0.4"
rand = "0.9"
serde = { version = "1", features = ["derive"] }
serde_json = "1"
uuid = { version = "1", features = ["v4"] }
