[package]
name = "mini_http"
version = "0.1.0"
edition = "2021"
publish = false

[dependencies]
httparse = "1"
log = "0.4"
env_logger = "0.11"
