[package]
name = "harmony"
version = "0.1.0"
edition = "2021"
publish = false

[dependencies]
async-trait = "0.1"
axum = "0.7"
chrono = "0.4"
dashmap = "6"
dotenvy = "0.15"
futures = "0.3"
redis = { version = "0.27", features = ["tokio-comp"] }
serde = { version = "1", features = ["derive"] }
serde_json = "1"
sqlx = { version = "0.8", default-features = false, features = ["postgres", "runtime-tokio", "chrono", "macros", "migrate"] }
thiserror = "2"
tokio = { version = "1", features = ["full"] }
tracing = "0.1"
tracing-subscriber = { version = "0.3", features = ["env-filter"] }
twilight-gateway = { version = "0.16", default-features = false, features = ["rustls-ring", "rustls-webpki-roots", "twilight-http", "zlib-stock"] }
twilight-http = { version = "0.16", default-features = false, features = ["rustls-ring", "rustls-webpki-roots"] }
twilight-interactions = "0.16"
twilight-model = "0.16"
twilight-util = { version = "0.16", features = ["builder"] }
uuid = { version = "1", features = ["v4"] }
