[package]
name = "beep"
version = "0.1.0"
edition = "2021"
publish = false

[dependencies]
dashmap = "4"
rand = "0.7"
serenity = "0.9"
mongodb = "1.1"
tokio = { version = "0.2", features = ["macros", "rt-threaded", "time"] }
serde = { version = "1", features = ["derive"] }
toml = "0.5"
kankyo = "0.3"
log = "0.4"
tracing-subscriber = "0.2"
futures = "0.3"
