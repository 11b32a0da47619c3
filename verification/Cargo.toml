[package]
name = "token_hub"
version = "0.1.0"
edition = "2021"
publish = false

[dependencies]
anyhow = "1"
argon2 = "0.5"
async-trait = "0.1"
axum = "0.7"
chrono = "0.4"
clap = { version = "4", features = ["derive", "env"] }
dashmap = "5"
hmac = "0.12"
jsonwebtoken = "9"
rand = "0.8"
redis = { version = "0.25", features = ["tokio-comp", "connection-manager"] }
reqwest = { version = "0.12", default-features = false, features = ["json"] }
serde = { version = "1", features = ["derive"] }
serde_json = { version = "1", features = ["preserve_order"] }
sha2 = "0.10"
sqlx = { version = "0.7", default-features = false, features = ["sqlite", "runtime-tokio", "macros"] }
thiserror = "1"
tiktoken-rs = "0.5"
tokio = { version = "1", features = ["full"] }
totp-rs = { version = "5", features = ["gen_secret"] }
tracing = "0.1"
uuid = { version = "1", features = ["v4"] }
