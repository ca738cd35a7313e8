[package]
name = "sharers"
version = "0.1.0"
edition = "2021"
publish = false

[dependencies]
rand = "0.8"
uuid = { version = "1", features = ["serde"] }
infer = "0.15"
sha2 = "0.10"
argon2 = "0.5"
rust-s3 = { version = "0.33", default-features = false, features = ["tokio-rustls-tls"] }
anyhow = "1"
async-trait = "0.1"
axum = { version = "0.6", features = ["multipart"] }
bytes = "1"
chrono = { version = "0.4", features = ["serde"] }
dotenvy = "0.15"
futures = "0.3"
glob = "0.3"
lazy_static = "1"
serde = { version = "1", features = ["derive"] }
serde_json = "1"
sqlx = { version = "0.7", default-features = false, features = ["runtime-tokio", "postgres", "uuid", "chrono"] }
tera = { version = "1", default-features = false }
thiserror = "1"
tokio = { version = "1", features = ["full"] }
tower-http = { version = "0.4", features = ["trace"] }
tracing = "0.1"
tracing-subscriber = { version = "0.3", features = ["env-filter"] }
