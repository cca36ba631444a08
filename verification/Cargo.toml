[package]
name = "delivery_station"
version = "0.1.0"
edition = "2021"
publish = false

[dependencies]
anyhow = "1"
blocking = "1"
chrono = "0.4"
env_logger = "0.10"
hex = "0.4"
hyper = { version = "0.14", features = ["full"] }
hyper-tls = "0.5"
log = "0.4"
once_cell = "1"
openssl = "0.10"
percent-encoding = "2"
rand = "0.8"
routerify = "3"
serde = { version = "1", features = ["derive"] }
serde_json = "1"
serde_urlencoded = "0.7"
serde_yaml = "0.9"
ssh2 = "0.9"
tera = "1"
tokio = { version = "1", features = ["full"] }
