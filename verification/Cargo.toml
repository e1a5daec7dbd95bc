[package]
name = "oscar_bio_dev"
version = "0.6.0"
edition = "2021"
publish = false

[dependencies]
regex = "1"
validator = "0.19"
chrono = { version = "0.4", features = ["serde"] }
uuid = { version = "1", features = ["v4"] }
base64 = "0.22"
lru = "0.12"
serde_urlencoded = "0.7"
serde = { version = "1", features = ["derive"] }
serde_json = "1"
prost = "0.13"
thiserror = "2"
tokio = { version = "1", features = ["full"] }
axum = { version = "0.7", features = ["ws"] }
axum-server = { version = "0.7", default-features = false, features = ["tls-rustls-no-provider"] }
rustls = { version = "0.23", default-features = false, features = ["ring", "std", "tls12", "logging"] }
rustls-pemfile = "2"
sqlx = { version = "0.8", default-features = false, features = ["runtime-tokio", "postgres", "chrono", "uuid"] }
reqwest = { version = "0.12", default-features = false, features = ["json", "rustls-tls"] }
jsonwebtoken = "9"
tracing = "0.1"
tracing-subscriber = { version = "0.3", features = ["env-filter"] }
tower = { version = "0.5", features = ["timeout"] }
tower-http = { version = "0.6", features = ["fs", "cors", "limit", "trace"] }
dotenvy = "0.15"
futures-util = "0.3"
google-cloud-pubsub = "*"
google-cloud-auth = "*"
