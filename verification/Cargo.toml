[package]
name = "labels"
version = "0.1.0"
edition = "2021"
publish = false

[dependencies]
dotenvy = "0.15"
serde = { version = "1", features = ["derive"] }
sqlx = { version = "0.8", default-features = false, features = ["derive", "migrate", "postgres", "runtime-tokio", "time", "uuid"] }
time = { version = "0.3", features = ["serde"] }
tokio = { version = "1", features = ["macros", "rt-multi-thread"] }
uuid = { version = "1", features = ["serde", "v4"] }
validator = { version = "*", features = ["derive"] }
