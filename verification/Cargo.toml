[package]
name = "wt_event_handler"
version = "0.1.0"
edition = "2021"
publish = false

[dependencies]
chrono = "0.4"
scraper = "0.18"
serde = { version = "1", features = ["derive"] }
serde_json = "1"
log = "0.4"
log4rs = "1"
lazy_static = "1"
reqwest = "0.11"
serenity = "0.10"
tokio = { version = "1", features = ["macros", "rt-multi-thread"] }
tracing = "0.1"
tracing-appender = "0.2"
tracing-subscriber = { version = "0.3", features = ["env-filter"] }
