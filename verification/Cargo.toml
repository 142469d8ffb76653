[package]
name = "auth_store"
version = "0.1.0"
edition = "2021"
publish = false

[dependencies]
rmp-serde = "1"
rand = "0.8"
uuid = "1"
redis = "*"
sqlx = { version = "*", default-features = false, features = ["runtime-tokio", "mysql", "postgres", "uuid"] }
tokio = { version = "1", features = ["sync"] }
