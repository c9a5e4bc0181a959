[package]
name = "proxy_session"
version = "0.1.0"
edition = "2021"
publish = false

[dependencies]
ipnetwork = { version = "=0.20.0", default-features = false }
rand = "=0.8.8"
dns-lookup = "=1.0.8"
serde = { version = "=1.0.229", features = ["derive"] }
tokio = { version = "1", features = ["rt-multi-thread", "time", "macros"] }
shadowsocks-service = { version = "1", features = ["local"] }
ninat = "0.1.0"
dnsping = "0.2.0"
