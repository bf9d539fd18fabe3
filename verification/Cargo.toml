[package]
name = "rufin_core"
version = "0.1.0"
edition = "2021"
publish = false

[dependencies]
age = "=0.11.5"
axum = "=0.8.9"
blake3 = "=1.8.7"
bytes = "=1.12.1"
flate2 = "=1.1.10"
futures-util = "=0.3.34"
getrandom = "=0.3.4"
http-body-util = "=0.1.5"
hyper = { version = "=1.12.0", features = ["http1", "server"] }
hyper-util = { version = "=0.1.21", features = ["service", "tokio"] }
image = { version = "0.25", default-features = false, features = ["png"] }
serde = { version = "=1.0.229", features = ["derive"] }
serde_json = "=1.0.154"
tempfile = "=3.27.0"
tokio = { version = "=1.54.1", features = ["full"] }
tokio-util = "0.7"
tracing = "=0.1.44"
tracing-subscriber = { version = "=0.3.23", features = ["env-filter"] }
url = "=2.5.8"
