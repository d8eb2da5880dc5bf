[package]
name = "hbba"
version = "0.1.0"
edition = "2021"
publish = false

[dependencies]
base64 = "0.13"
chrono = "0.4"
jsonwebtoken = "8"
serde_json = "1"
uuid = "1"
serde = { version = "1", features = ["derive"] }
serde_with = { version = "1", features = ["json"] }
async-trait = "0.1"
axum = "0.5"
tokio = { version = "1", features = ["rt-multi-thread", "macros"] }
sqlx = { version = "0.5", features = ["runtime-tokio-rustls", "sqlite", "chrono", "json"] }
tower-http = { version = "0.3", features = ["fs"] }
tracing = "0.1"
tracing-subscriber = { version = "0.3", features = ["env-filter"] }
clap = { version = "3", features = ["derive"] }
