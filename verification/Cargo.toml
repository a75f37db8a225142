[package]
name = "pocket-tts-essential"
version = "0.1.0"
edition = "2021"
publish = false

[dependencies]
anyhow = "1"
candle-core = "0.8"
candle-nn = "0.8"
clap = { version = "4", features = ["derive"] }
rand = "0.8"
rand_distr = "0.4"
serde = { version = "1", features = ["derive"] }
serde_yaml = "0.9"
