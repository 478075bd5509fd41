[package]
name = "cistern"
version = "0.1.0"
edition = "2021"
publish = false

[dependencies]
actix-rt = "=2.15.0"
ads1x1x = "=0.3.0"
anyhow = "=1.0.104"
embedded-hal = "=1.0.0"
env_logger = "=0.11.11"
linux-embedded-hal = "=0.5.0"
log = "=0.4.34"
medianheap = "=0.4.1"
nb = "=1.1.0"
serde_json = "=1.0.154"
tokio = { version = "=1.54.1", features = ["macros", "rt", "sync"] }
webthing = "=0.15.2"
