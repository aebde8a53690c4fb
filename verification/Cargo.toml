[package]
name = "proxy_stack"
version = "0.1.0"
edition = "2021"
publish = false

[dependencies]
futures = "=0.1.31"
hyper = { version = "0.12", default-features = false }
indexmap = "=1.9.3"
log = "=0.4.35"
tokio-current-thread = "0.1"
tokio-executor = "=0.1.10"
tokio-sync = "=0.1.8"
tokio-tcp = "0.1"
tokio-timer = "=0.2.13"
tower-service = "=0.2.0"
