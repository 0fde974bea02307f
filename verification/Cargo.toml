[package]
name = "rocket_auth"
version = "0.1.0"
edition = "2021"
publish = false

[dependencies]
chashmap = "2.2.2"
rust-argon2 = "*"
rand = "0.8"
rusqlite = { version = "*", features = ["bundled"] }
serde_json = "1"
thiserror = "1"
redis = { version = "0.23", features = ["tokio-comp"] }
rocket = "0.5"
tokio = { version = "1", features = ["sync", "rt-multi-thread", "macros"] }
