[package]
name = "instagram_api"
version = "0.1.0"
edition = "2021"
publish = false

[dependencies]
serde_json = "=1.0.151"
chrono = "=0.4.45"
instagram-link = "=0.1.3"
http-api-client-endpoint = "=0.2.1"
http-api-isahc-client = "=0.2.2"
futures-lite = "=2.6.1"
env_logger = "=0.11.11"
