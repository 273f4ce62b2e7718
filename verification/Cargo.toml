[package]
name = "social_media_app"
version = "0.1.0"
edition = "2021"
publish = false

[dependencies]
axum = "0.7"
axum-extra = { version = "0.9", features = ["typed-header"] }
bcrypt = "0.15"
chrono = { version = "0.4", features = ["serde"] }
deadpool-redis = "0.15"
dotenvy = "0.15"
jsonwebtoken = "9"
mimalloc = "0.1"
serde = { version = "1", features = ["derive"] }
serde_json = "1"
sqlx = { version = "0.7", default-features = false, features = ["runtime-tokio", "postgres", "uuid", "chrono", "macros", "migrate"] }
tokio = { version = "1", features = ["full"] }
tower = "0.4"
tower-http = { version = "0.5", features = ["limit", "timeout", "trace"] }
uuid = { version = "1", features = ["v4", "serde"] }
