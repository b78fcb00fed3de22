[package]
name = "crustasystem"
version = "0.1.0"
edition = "2021"
publish = false

[dependencies]
axum = "*"
sea-orm = { version = "*", default-features = false, features = ["macros", "with-chrono", "sqlx-sqlite", "runtime-tokio-rustls"] }
serde = { version = "1", features = ["derive"] }
tokio = { version = "1", features = ["full"] }
tower-http = { version = "*", features = ["cors"] }
tracing = "0.1"
tracing-subscriber = { version = "0.3", features = ["env-filter"] }
