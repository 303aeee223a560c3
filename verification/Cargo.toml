[package]
name = "tun_bridge"
version = "0.1.0"
edition = "2021"
publish = false

[dependencies]
anyhow = "=1.0.104"
clap = { version = "=4.6.7", features = ["derive"] }
env_logger = "=0.11.11"
futures = "=0.3.34"
log = "=0.4.34"
lwip = "=0.3.15"
tokio = { version = "=1.53.2", features = ["rt-multi-thread", "macros", "io-util", "time", "sync"] }
tokio-tun = "=0.15.2"
