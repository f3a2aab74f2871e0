[package]
name = "kafka_top"
version = "0.1.0"
edition = "2021"
publish = false

[dependencies]
anyhow = "1"
clap = { version = "4", features = ["derive", "env"] }
crossterm = "*"
ratatui = "*"
rdkafka = "*"
tokio = { version = "1", features = ["full"] }
tracing = "*"
