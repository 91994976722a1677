[package]
name = "pmetrics"
version = "0.1.0"
edition = "2021"
publish = false

[dependencies]
serde_json = "1"
chrono = "0.4"
postgres = "0.19"
clap = { version = "4", features = ["derive"] }
