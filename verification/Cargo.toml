[package]
name = "flashcards"
version = "0.1.0"
edition = "2021"
publish = false

[dependencies]
serde_json = "1"
unicode-normalization = "0.1"
uuid = { version = "1", features = ["v5", "v7"] }
rand = "0.8"
chrono = "0.4"
serde = { version = "1", features = ["derive"] }
axum = "0.7"
axum-extra = { version = "0.9", features = ["cookie"] }
time = "0.3"
tokio = { version = "1", features = ["macros", "rt", "net", "signal"] }
tower-http = { version = "0.5", features = ["trace", "request-id"] }
tracing = "0.1"
tracing-subscriber = { version = "0.3", features = ["env-filter", "json"] }
rusqlite = { version = "*", features = ["bundled"] }
rusqlite_migration = "*"
thiserror = "1"
