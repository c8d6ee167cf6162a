[package]
name = "canbusnoop"
version = "0.1.0"
edition = "2021"
publish = false

[dependencies]
anyhow = "1"
clap = { version = "4", features = ["derive"] }
colorsys = "0.6"
env_logger = "0.10"
futures-channel = "0.3"
futures-util = "0.3"
log = "0.4"
oorandom = "11.1"
thiserror = "1"
tokio = { version = "1", features = ["macros", "rt-multi-thread", "time"] }
tokio-socketcan = "0.3"
tokio-stream = "0.1"
