[package]
name = "bagel"
version = "0.1.0"
edition = "2021"
publish = false

[dependencies]
axum = "=0.8.9"
chrono = { version = "=0.4.45", features = ["serde"] }
serde = { version = "=1.0.229", features = ["derive"] }
sqlx = { version = "=0.8.6", default-features = false, features = ["runtime-tokio", "sqlite", "chrono", "migrate"] }
tower-http = { version = "=0.6.11", features = ["fs", "trace"] }
tracing = "=0.1.44"
utoipa = { version = "=5.5.0", features = ["axum_extras", "chrono"] }
utoipa-axum = "=0.2.0"
