[package]
name = "scx_horoscope"
version = "0.1.0"
edition = "2021"
publish = false

[dependencies]
chrono = "0.4"
procfs = "*"
anyhow = "1"
clap = { version = "4", features = ["derive"] }
log = "0.4"
simplelog = "0.12"
