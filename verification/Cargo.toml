[package]
name = "streetgrid"
version = "0.1.0"
edition = "2021"
publish = false

[dependencies]
tokio = { version = "*", features = ["macros", "rt-multi-thread", "time"] }
clap = { version = "*", features = ["derive"] }
serde = { version = "*", features = ["derive"] }
serde_yaml = "*"
env_logger = "*"
log = "*"
anyhow = "*"
rppal = "*"
ads1x1x = "*"
linux-embedded-hal = "*"
