[package]
name = "auction_core"
version = "0.1.0"
edition = "2021"
publish = false

[dependencies]
anyhow = "1"
async-trait = "0.1"
axum = "0.7"
bcrypt = "*"
chrono = "0.4"
fancy-regex = "*"
futures = "0.3"
jsonwebtoken = "9"
serde = { version = "1", features = ["derive"] }
serde_json = "1"
sqlx = { version = "0.7", default-features = false, features = ["postgres", "runtime-tokio", "uuid", "chrono", "macros"] }
thiserror = "1"
tokio = { version = "1", features = ["macros", "rt-multi-thread"] }
tokio-cron-scheduler = "*"
tower-http = { version = "0.5", features = ["cors"] }
tracing = "0.1"
uuid = { version = "1", features = ["v4"] }
validator = { version = "*", features = ["derive"] }
