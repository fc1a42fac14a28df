[package]
name = "user_accounts"
version = "0.1.0"
edition = "2021"
publish = false

[dependencies]
axum = "0.7"
bcrypt = "0.15"
dotenv = "0.15"
jsonwebtoken = { version = "9", default-features = false }
log = "0.4"
refinery = { version = "0.8", features = ["mysql"] }
serde = { version = "1", features = ["derive"] }
serde_json = "1"
sqlx = { version = "0.7", default-features = false, features = ["mysql", "runtime-tokio", "macros"] }
tokio = { version = "1", features = ["full"] }
tracing-subscriber = "0.3"
uuid = { version = "1", features = ["v4"] }
