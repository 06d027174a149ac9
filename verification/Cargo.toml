[package]
name = "cfddns"
version = "0.1.0"
edition = "2021"
publish = false

[dependencies]
clap = "2.33"
cloudflare = "0.6"
env_logger = "0.7"
log = "0.4"
reqwest = { version = "0.10", features = ["blocking"] }
