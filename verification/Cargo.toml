[package]
name = "bingo_backend"
version = "0.1.0"
edition = "2021"
publish = false

[dependencies]
rand = "0.8"
actix = "*"
actix-web = "*"
actix-web-actors = "*"
tokio = { version = "1", features = ["sync", "rt", "macros"] }
serde = { version = "1", features = ["derive"] }
serde_json = "1"
ulid = "*"
log = "*"
env_logger = "*"
thiserror = "*"
parking_lot = "*"
dashmap = "*"
