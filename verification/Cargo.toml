[package]
name = "solar_catalog"
version = "0.1.0"
edition = "2021"
publish = false

[dependencies]
argon2 = "*"
axum = "*"
chrono = { version = "*", features = ["serde"] }
dotenv = "*"
env_logger = "*"
http-auth-basic = "*"
log = "*"
mime = "*"
mongodb = "*"
redis = { version = "*", features = ["tokio-comp", "connection-manager"] }
serde = { version = "*", features = ["derive"] }
serde_json = "*"
tokio = { version = "*", features = ["macros", "rt-multi-thread", "net"] }
tokio-stream = "*"
