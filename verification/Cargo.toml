[package]
name = "switcharoo"
version = "0.1.0"
edition = "2021"
publish = false

[dependencies]
actix-files = "=0.6.10"
actix-session = { version = "=0.10.1", features = ["cookie-session"] }
actix-web = "=4.18.1"
actix-web-httpauth = "=0.8.3"
anyhow = "=1.0.104"
rust-argon2 = { version = "=0.8.3", default-features = false }
chrono = "=0.4.45"
deadpool-redis = "=0.23.1"
dotenv = "=0.15.0"
env_logger = "=0.11.11"
jsonwebtoken = "=9.3.1"
mime_guess = "=2.0.5"
rand = "=0.8.8"
serde = { version = "=1.0.229", features = ["derive"] }
sqlx = { version = "=0.8.6", default-features = false, features = ["runtime-tokio", "postgres", "uuid"] }
toml = "=1.2.1"
uuid = { version = "=1.29.1", features = ["v4"] }
