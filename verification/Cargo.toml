[package]
name = "dns_bootstrap"
version = "0.1.0"
edition = "2021"
publish = false

[dependencies]
clap = { version = "=4.6.7", features = ["derive"] }
libc = "=0.2.191"
metrics-exporter-prometheus = { version = "*", default-features = false, features = ["http-listener"] }
socket2 = "=0.5.10"
time = "=0.3.55"
tokio = { version = "=1.54.1", features = ["rt-multi-thread", "net", "signal", "macros"] }
tracing = "=0.1.44"
tracing-subscriber = { version = "=0.3.23", features = ["env-filter", "fmt"] }
