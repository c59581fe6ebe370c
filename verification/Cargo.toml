[package]
name = "backend_core"
version = "0.1.0"
edition = "2021"
publish = false

[dependencies]
secrecy = "*"
zeroize = "*"
validator = "*"
uuid = { version = "*", features = ["v4"] }
axum = "*"
tokio = { version = "*", features = ["macros", "rt-multi-thread", "signal", "time", "net"] }
serde = { version = "*", features = ["derive"] }
serde_json = "*"
sqlx = { version = "*", default-features = false, features = ["mysql", "runtime-tokio"] }
mongodb = "*"
redis = { version = "*", default-features = false }
lapin = "*"
rdkafka = "*"
dotenvy = "*"
config = { version = "*", default-features = false, features = ["toml"] }
tracing = "*"
tracing-subscriber = { version = "*", features = ["env-filter", "fmt", "json"] }
tower-http = { version = "*", features = ["trace"] }
