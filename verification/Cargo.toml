[package]
name = "tsp_ytdlp"
version = "0.1.0"
edition = "2021"
publish = false

[dependencies]
md5 = "*"
serde = { version = "1", features = ["derive"] }
serde_json = "1"
toml = "*"
tokio = { version = "1", features = ["full"] }
clap = { version = "4", features = ["derive"] }
atty = "0.2"
directories = "*"
filetime = "0.2"
futures = "0.3"
anyhow = "1"
tracing = "0.1"
tracing-appender = "0.2"
tracing-subscriber = { version = "0.3", features = ["env-filter"] }
