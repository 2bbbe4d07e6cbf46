[package]
name = "jukebox"
version = "0.1.0"
edition = "2021"
publish = false

[dependencies]
anyhow = "1"
env_logger = "0.9"
futures = "0.3"
log = "0.4"
serenity = "0.10"
songbird = "0.2"
tokio = { version = "1", features = ["macros", "rt-multi-thread", "sync"] }
unicode-prettytable = "*"
url = "2"
uuid = "0.8"
