[package]
name = "device_gateway"
version = "0.1.0"
edition = "2021"
publish = false

[dependencies]
serde_json = "=1.0.154"
serde = { version = "=1.0.229", features = ["derive"] }
toml = "=1.1.8"
log = "=0.4.34"
loge = { version = "=0.4.2", features = ["file"] }
redis = { version = "=1.8.0", features = ["tokio-comp"] }
tokio = { version = "=1.54.1", features = ["full"] }
futures = "=0.3.34"
actix-web = "=4.18.1"
