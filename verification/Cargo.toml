[package]
name = "carteira"
version = "0.1.0"
edition = "2021"
publish = false

[dependencies]
askama = "0.12"
axum = "0.8"
axum-extra = { version = "0.10", features = ["cookie"] }
chrono = "0.4"
color-eyre = "0.6"
dotenvy = "0.15"
jsonwebtoken = "9"
password-auth = "1"
serde = { version = "1", features = ["derive"] }
sqlx = { version = "0.8", default-features = false, features = ["runtime-tokio", "postgres"] }
tokio = { version = "1", features = ["macros", "rt-multi-thread", "net"] }
tracing = "0.1"
tracing-subscriber = "0.3"
