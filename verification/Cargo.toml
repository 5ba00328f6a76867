[package]
name = "submitsnap_core"
version = "0.1.0"
edition = "2021"
publish = false

[dependencies]
anyhow = "=1.0.104"
argon2 = { version = "=0.5.3", features = ["std"] }
axum-extra = { version = "=0.10.3", default-features = false, features = ["cookie"] }
chrono = { version = "=0.4.45", default-features = false, features = ["std", "clock", "serde"] }
jsonwebtoken = "=9.3.1"
secrecy = "=0.10.3"
serde = { version = "=1.0.229", features = ["derive"] }
serde_json = "=1.0.154"
thiserror = "=2.0.21"
time = "=0.3.55"
uuid = { version = "=1.29.0", features = ["v4", "serde"] }
validator = "=0.20.0"
