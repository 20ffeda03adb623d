[package]
name = "chat_relay"
version = "0.1.0"
edition = "2021"
publish = false

[dependencies]
time = "*"
axum = { version = "*", features = ["ws"] }
axum-client-ip = "*"
dotenvy = "*"
futures = "*"
sqlx = { version = "*", default-features = false, features = ["runtime-tokio", "sqlite", "time", "migrate"] }
tokio = { version = "*", features = ["rt-multi-thread", "macros", "sync", "time", "net"] }
