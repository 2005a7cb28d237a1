[package]
name = "reverse_proxy"
version = "0.1.0"
edition = "2021"
publish = false

[dependencies]
url = "2"
actix-web = { version = "3", default-features = false }
actix-cors = "0.5"
actix-files = "0.5"
env_logger = "0.8"
futures = "0.3"
