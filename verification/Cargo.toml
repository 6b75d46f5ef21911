[package]
name = "resumable_http"
version = "0.1.0"
edition = "2021"
publish = false

[dependencies]
astral-reqwest-middleware = "=0.5.1"
astral-reqwest-retry = "=0.9.1"
futures = "=0.3.34"
h2 = "=0.4.20"
http = "=1.5.0"
reqwest = { version = "=0.13.5", default-features = false, features = ["stream"] }
thiserror = "=2.0.21"
tokio = { version = "=1.54.1", features = ["io-util", "rt", "time"] }
tokio-util = { version = "=0.7.20", features = ["io"] }
tracing = "=0.1.44"
url = "=2.5.8"
