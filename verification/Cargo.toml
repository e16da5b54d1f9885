[package]
name = "pivot_api"
version = "0.1.0"
edition = "2021"
publish = false

[dependencies]
sha2 = "0.10"
serde = { version = "1", features = ["derive"] }
serde_json = "1"
actix-web = { version = "4", default-features = false, features = ["macros"] }
actix-cors = "0.7"
reqwest = { version = "0.12", default-features = false }
redis = { version = "0.25", features = ["tokio-comp", "connection-manager"] }
clickhouse = "0.11"
tracing = "0.1"
tracing-subscriber = { version = "0.3", features = ["env-filter"] }
tracing-actix-web = "0.7"
dotenvy = "0.15"
chrono = "0.4"
clap = { version = "4", features = ["derive"] }
csv = "1"
rand = "0.8"
