[package]
name = "wireguard_proxy"
version = "0.1.0"
edition = "2021"
publish = false

[dependencies]
anyhow = "=1.0.104"
axum = "=0.8.9"
base64 = "=0.23.1"
boringtun = "=0.6.0"
futures-lite = "=2.6.1"
ipnet = "=2.12.2"
ipstack = "=1.0.1"
serde = { version = "=1.0.229", features = ["derive"] }
serde_json = "=1.0.154"
tcp_ip = "=0.2.2"
tokio = { version = "=1.54.1", features = ["full"] }
tokio-stream = "=0.1.19"
tokio-wireguard = "=0.1.3"
tun-rs = { version = "=2.8.16", features = ["async"] }
