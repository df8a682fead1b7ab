[package]
name = "pos_backend"
version = "0.1.0"
edition = "2021"
publish = false

[dependencies]
anyhow = "*"
axum = "*"
bcrypt = "=0.19.3"
chrono = "=0.4.45"
dotenv = "*"
jsonwebtoken = { version = "=11.1.0", features = ["rust_crypto"] }
serde = { version = "*", features = ["derive"] }
serde_json = "*"
sqlx = { version = "*", default-features = false, features = ["runtime-tokio", "mysql", "chrono", "uuid"] }
tokio = { version = "*", features = ["rt-multi-thread", "macros", "net"] }
tower-http = { version = "*", features = ["cors"] }
tracing-subscriber = "*"
uuid = { version = "=1.27.0", features = ["v4"] }
validator = "=0.21.0"
