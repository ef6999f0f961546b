[package]
name = "soft_kvm"
version = "0.1.0"
edition = "2021"
publish = false

[dependencies]
uuid = { version = "=1.29.0", features = ["v4"] }
chrono = "=0.4.45"
ring = "=0.17.14"
hex = "=0.4.3"
url = "=2.5.8"
whoami = "=1.6.1"
serde = { version = "=1.0.229", features = ["derive"] }
serde_json = "=1.0.154"
tokio = { version = "=1.54.1", features = ["full"] }
clap = "=4.6.7"
tracing = "=0.1.44"
tracing-subscriber = { version = "=0.3.23", features = ["env-filter"] }
thiserror = "=1.0.69"
futures = "=0.3.34"
async-trait = "=0.1.92"
tokio-tungstenite = "=0.20.1"
rustls = { version = "=0.21.12", features = ["dangerous_configuration"] }
rustls-pemfile = "=1.0.4"
tokio-rustls = "=0.24.1"
metrics = "=0.22.4"
metrics-exporter-prometheus = "=0.13.1"
directories = "=5.0.1"
libc = "=0.2.191"
lazy_static = "=1.5.1"
mdns = "3"
