[package]
name = "uestc_power_monitor"
version = "0.1.0"
edition = "2021"
publish = false

[dependencies]
chrono = "=0.4.45"
config = { version = "=0.14.1", default-features = false, features = ["toml"] }
lettre = { version = "0.11", default-features = false, features = ["builder", "smtp-transport", "tokio1", "tokio1-rustls-tls"] }
reqwest = { version = "=0.12.28", default-features = false, features = ["json", "rustls-tls"] }
serde = { version = "=1.0.229", features = ["derive"] }
sqlx = { version = "=0.8.6", default-features = false, features = ["runtime-tokio", "postgres"] }
tokio = { version = "=1.54.1", features = ["full"] }
tracing = "=0.1.44"
tracing-subscriber = { version = "=0.3.23", features = ["env-filter"] }
uestc-client = "=0.4.0"
url = "=2.5.8"
