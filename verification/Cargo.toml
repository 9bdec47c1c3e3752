[package]
name = "elerem"
version = "0.1.0"
edition = "2021"
publish = false

[dependencies]
argon2 = "*"
jsonwebtoken = "*"
axum = "*"
tokio = { version = "*", features = ["full"] }
serde = { version = "*", features = ["derive"] }
serde_json = "*"
menva = "*"
