[package]
name = "quote_lib"
version = "0.1.0"
edition = "2021"
publish = false

[dependencies]
axum = "*"
chrono = "0.4"
deadpool-redis = "*"
dotenv = "0.15"
elasticsearch = "8.5.0-alpha.1"
fast_log = "*"
log = "0.4"
once_cell = "1"
rand = "0.8"
rdkafka = "*"
reqwest = { version = "*", features = ["json"] }
serde = { version = "1", features = ["derive"] }
serde_json = "1"
thiserror = "*"
tokio = { version = "1", features = ["full"] }
uuid = { version = "1", features = ["v4"] }
