[package]
name = "arkheion"
version = "0.1.0"
edition = "2021"
publish = false

[dependencies]
axum = "*"
chrono = "*"
serde = { version = "*", features = ["derive"] }
serde_json = "*"
sqlx = { version = "*", default-features = false, features = ["runtime-tokio", "sqlite", "macros"] }
tokio = { version = "*", features = ["rt-multi-thread", "macros", "time", "net", "io-util"] }
