[package]
name = "maistats"
version = "0.1.0"
edition = "2021"
publish = false

[dependencies]
scraper = "=0.29.0"
sha2 = "=0.11.1"
hex = "=0.4.3"
urlencoding = "=2.1.3"
reqwest = { version = "=0.13.5", default-features = false, features = ["json"] }
chrono = "=0.4.45"
chrono-tz = "=0.10.4"
serde = { version = "=1.0.229", features = ["derive"] }
serde_json = "=1.0.154"
tokio = { version = "=1.54.1", features = ["macros", "rt-multi-thread", "time"] }
clap = { version = "=4.6.7", features = ["derive"] }
dotenvy = "=0.15.7"
eyre = "=0.6.14"
tracing = "=0.1.44"
tracing-subscriber = { version = "=0.3.23", features = ["env-filter"] }
time = "0.3"
rand = "0.8"
base64 = "0.22"
