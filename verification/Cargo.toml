[package]
name = "wormhole_transfer"
version = "0.1.0"
edition = "2021"
publish = false

[dependencies]
magic-wormhole = "=0.6.1"
url = "=2.5.8"
serde = { version = "=1.0.229", features = ["derive"] }
serde_json = "=1.0.151"
futures-util = "=0.3.34"
libc = "=0.2.155"
