[package]
name = "zero2prod"
version = "0.1.0"
edition = "2021"
publish = false

[dependencies]
validator = "=0.21.0"
uuid = { version = "=1.27.0", features = ["v4"] }
chrono = { version = "=0.4.45", default-features = false, features = ["clock", "std"] }
actix-web = { version = "=4.15.0", default-features = false, features = ["macros"] }
tokio = { version = "1", features = ["macros", "rt-multi-thread", "net"] }
sqlx = { version = "=0.8.6", default-features = false, features = ["runtime-tokio", "postgres", "uuid", "chrono"] }
config = { version = "=0.15.27", default-features = false, features = ["json"] }
serde = { version = "1", features = ["derive"] }
secrecy = { version = "=0.8.0", features = ["serde"] }
anyhow = "1"
tracing = "0.1"
tracing-actix-web = "*"
tracing-bunyan-formatter = "*"
tracing-log = "*"
tracing-subscriber = { version = "0.3", features = ["env-filter", "registry"] }

[dev-dependencies]
fake = "=5.1.0"
