[package]
name = "middleware_state"
version = "0.1.0"
edition = "2021"
publish = false

[dependencies]
ntex = { version = "*", features = ["tokio"] }
env_logger = "*"
futures = "*"
