[package]
name = "webshell_detector"
version = "0.1.0"
edition = "2021"
publish = false

[dependencies]
md5 = "0.7"
regex = "1"
anyhow = "1"
chrono = "0.4"
clap = { version = "3", features = ["derive"] }
diesel = { version = "2", features = ["sqlite"] }
dotenvy = "0.15"
tracing = "0.1"
tracing-appender = "0.2"
tracing-subscriber = "0.3"
