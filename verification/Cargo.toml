[package]
name = "session_gateway"
version = "0.1.0"
edition = "2021"
publish = false

[dependencies]
dashmap = "*"
uuid = { version = "*", features = ["v4"] }
actix-web = "*"
actix-extensible-rate-limit = "*"
serde_json = "*"
log = "*"
env_logger = "*"
dotenv = "*"
lazy_static = "*"
tokio = { version = "*", features = ["rt-multi-thread", "time", "macros"] }
rbxcloud = "*"
