[package]
name = "froggi"
version = "0.1.0"
edition = "2021"
publish = false

[dependencies]
rand = "0.8"
base64 = "0.22"
argon2 = { version = "0.5", features = ["std"] }
uuid = { version = "1", features = ["v4"] }
axum = { version = "0.7", features = ["ws", "multipart"] }
axum-extra = { version = "0.9", features = ["cookie"] }
tokio = { version = "1", features = ["full"] }
serde = { version = "1", features = ["derive"] }
serde_json = "1"
jsonwebtoken = "9"
cookie = "0.18"
tower-http = { version = "0.5", features = ["cors"] }
reqwest = { version = "0.12", default-features = false, features = ["rustls-tls"] }
lazy_static = "1"
anyhow = "1"
git2 = { version = "0.19", default-features = false }
nix = { version = "0.29", features = ["signal"] }
