[package]
name = "news_relay"
version = "0.1.0"
edition = "2021"
publish = false

[dependencies]
eyre = "0.6"
poise = "0.6"
reqwest = { version = "0.11", default-features = false, features = ["rustls-tls"] }
rss = { version = "2", default-features = false }
tokio = { version = "1", features = ["macros", "rt-multi-thread"] }
tokio-cron-scheduler = "*"
tracing = "0.1"
tracing-subscriber = "0.3"
