[package]
name = "cqamq"
version = "0.1.0"
edition = "2021"
publish = false

[dependencies]
serde_json = "=1.0.154"
serde = { version = "=1.0.229", features = ["derive"] }
toml = "=1.1.8"
lapin = { version = "=4.12.3", default-features = false, features = ["async-global-executor"] }
