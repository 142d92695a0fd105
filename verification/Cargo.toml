[package]
name = "lucchat_api"
version = "0.1.0"
edition = "2021"
publish = false

[dependencies]
argon2 = "=0.5.3"
axum = "=0.8.9"
chrono = "=0.4.45"
futures = "=0.3.34"
jsonwebtoken = "=9.3.1"
mongodb = "=3.9.1"
password-hash = "=0.5.0"
rand_core = { version = "=0.6.4", features = ["getrandom"] }
redis = { version = "=0.27.6", features = ["tokio-comp"] }
regex = "=1.13.1"
serde = { version = "=1.0.229", features = ["derive"] }
serde_json = { version = "=1.0.154", features = ["preserve_order"] }
shuttle-axum = "=0.57.0"
shuttle-runtime = "=0.57.0"
tokio = { version = "=1.54.1", features = ["time"] }
uuid = { version = "=1.29.0", features = ["v4"] }
