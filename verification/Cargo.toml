[package]
name = "socks4_relay"
version = "0.1.0"
edition = "2021"
publish = false

[dependencies]
tokio = { version = "*", features = ["net", "io-util", "time", "rt-multi-thread", "macros"] }
log = "*"
env_logger = "*"
thiserror = "*"
