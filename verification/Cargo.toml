[package]
name = "prometheus_ping"
version = "0.1.0"
edition = "2021"
publish = false

[dependencies]
clap = "2"
hyper = { version = "0.14", features = ["server", "http1", "tcp"] }
prometheus = "0.13"
tokio = { version = "1", features = ["rt", "net", "time"] }
