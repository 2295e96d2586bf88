[package]
name = "db_lifecycle"
version = "0.1.0"
edition = "2021"
publish = false

[dependencies]
anyhow = "1"
console = "0.15"
promptly = "0.3"
sqlx = { version = "0.8", default-features = false, features = ["any", "migrate", "runtime-tokio"] }
tokio = { version = "1", default-features = false, features = ["rt"] }
