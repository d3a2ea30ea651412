[package]
name = "vertebrae-local-backend"
version = "0.1.0"
edition = "2021"
publish = false

[dependencies]
libsql = { version = "*", default-features = false, features = ["core"] }
tokio = { version = "1", features = ["sync", "rt"] }
futures = "0.3"
thiserror = "*"
async-trait = "*"
