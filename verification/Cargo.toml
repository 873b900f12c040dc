[package]
name = "phase4"
version = "0.1.0"
edition = "2021"
publish = false

[dependencies]
anyhow = "=1.0.104"
biquad = "=0.6.0"
clap = { version = "=4.6.7", features = ["derive"] }
crossterm = "=0.29.0"
env_logger = "=0.11.11"
futures-util = "=0.3.34"
hound = "=3.5.1"
libc = "=0.2.191"
log = "=0.4.35"
no_denormals = "=0.3.0"
ringbuf = "=0.4.8"
rosc = "=0.11.4"
serde = { version = "=1.0.229", features = ["derive"] }
serde_json = "=1.0.154"
serde_yaml = "=0.9.34"
socket2 = "=0.6.5"
thiserror = "=1.0.69"
thread-priority = "=3.1.1"
tokio = { version = "=1.54.1", features = ["full"] }
tokio-tungstenite = "=0.30.0"
