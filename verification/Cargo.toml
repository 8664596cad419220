[package]
name = "commit_bridge"
version = "0.1.0"
edition = "2021"
publish = false

[dependencies]
http = "1"
chrono = "0.4"
url = "2"
validator = "0.20"
subtle = "2"
serde = { version = "1", features = ["derive"] }
serde_json = "1"
thiserror = "2"
tokio = { version = "1", features = ["rt-multi-thread", "macros", "signal", "net", "time", "sync"] }
tokio-util = { version = "0.7", features = ["rt"] }
futures = "0.3"
async-trait = "0.1"
axum = "0.8"
tower-http = { version = "0.6", features = ["timeout", "trace"] }
reqwest = { version = "0.12", default-features = false, features = ["json", "rustls-tls"] }
sqlx = { version = "0.8", default-features = false, features = ["sqlite", "runtime-tokio", "chrono", "macros"] }
tracing = "0.1"
tracing-subscriber = { version = "0.3", features = ["env-filter"] }
jsonwebtoken = "9"
dotenvy = "0.15"
config = "0.15"
humantime-serde = "1"
