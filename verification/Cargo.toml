[package]
name = "probe_metrics"
version = "0.1.0"
edition = "2021"
publish = false

[dependencies]
keshvar = { version = "=0.7.0", features = ["serde-derive"] }
geohash = "=0.13.2"
serde = { version = "=1.0.229", features = ["derive"] }
serde_json = "=1.0.154"
figment = { version = "=0.10.19", features = ["yaml", "env"] }
humantime-serde = "=1.1.1"
metrics = "=0.24.6"
metrics-exporter-prometheus = { version = "=0.18.3", default-features = false }
metrics-util = "=0.20.4"
poem = "=3.1.12"
tokio = { version = "=1.54.1", features = ["macros", "rt-multi-thread", "time", "sync"] }
reqwest = { version = "=0.12.28", default-features = false, features = ["json", "rustls-tls"] }
tracing = "=0.1.44"
tracing-subscriber = { version = "=0.3.23", features = ["env-filter", "json"] }
color-eyre = "=0.6.5"
thiserror = "=1.0.69"
eyre = "0.6"
prometheus = { version = "0.13", default-features = false }
warp = { version = "0.3", default-features = false }
