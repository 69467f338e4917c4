[package]
name = "dns_relay"
version = "0.1.0"
edition = "2021"
publish = false

[dependencies]
anyhow = "1"
bytes = "1"
log = "0.4"
pretty_env_logger = "0.5"
tokio = { version = "1", features = ["net", "rt-multi-thread", "macros", "time"] }
