[package]
name = "tasks_backend"
version = "0.1.0"
edition = "2021"
publish = false

[dependencies]
axum = "=0.8.9"
bcrypt = "=0.19.3"
chrono = { version = "=0.4.45", features = ["serde"] }
jsonwebtoken = "9"
serde = { version = "=1.0.229", features = ["derive"] }
sqlx = { version = "=0.8.6", default-features = false, features = ["postgres", "uuid", "chrono", "runtime-tokio", "macros"] }
uuid = { version = "=1.29.0", features = ["serde"] }
validator = "=0.21.0"
