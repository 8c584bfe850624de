[package]
name = "blog"
version = "0.1.0"
edition = "2021"
publish = false

[dependencies]
axum = "0.8"
dotenvy = "0.15"
envy = "0.4"
http-body-util = "0.1"
jsonwebtoken = { version = "10", default-features = false, features = ["rust_crypto"] }
serde = { version = "1", features = ["derive"] }
serde_json = "1"
sqlx = { version = "0.8", default-features = false, features = ["runtime-tokio", "postgres", "time", "derive", "migrate"] }
thiserror = "2"
time = { version = "0.3", features = ["serde", "formatting", "parsing"] }
tokio = { version = "1", features = ["full"] }
tracing = "0.1"
tracing-subscriber = { version = "0.3", features = ["env-filter", "json"] }
validator = "0.20"
