[package]
name = "device_gateway"
version = "0.1.0"
edition = "2021"
publish = false

[dependencies]
uuid = { version = "1", features = ["v4", "serde"] }
anyhow = "1"
axum = "*"
chrono = { version = "0.4", features = ["serde"] }
config = "*"
dirs = "*"
env_logger = "*"
influxdb = "*"
log = "0.4"
rdkafka = "*"
serde = { version = "1", features = ["derive"] }
serde_json = "1"
sqlx = { version = "*", default-features = false, features = ["mysql", "runtime-tokio", "chrono"] }
tokio = { version = "1", features = ["full"] }
toml = "*"
tower = "*"
tower-http = { version = "*", features = ["cors"] }
