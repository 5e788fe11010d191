[package]
name = "discalen"
version = "0.1.0"
edition = "2021"
publish = false

[dependencies]
anyhow = "=1.0.104"
chrono = "=0.4.45"
config = "=0.13.4"
dotenvy = "=0.15.7"
futures = "=0.3.34"
google-calendar3 = "=5.0.5"
humantime-serde = "=1.1.1"
secrecy = { version = "=0.8.0", features = ["serde"] }
serde = { version = "=1.0.229", features = ["derive"] }
serenity = "=0.12.5"
sqlx = { version = "=0.7.4", default-features = false, features = ["runtime-tokio", "postgres"] }
thiserror = "=1.0.69"
tokio = { version = "=1.54.1", features = ["macros", "rt-multi-thread", "time"] }
tracing = "=0.1.44"
tracing-subscriber = "=0.3.23"
yup-oauth2 = "=9.0.0"
