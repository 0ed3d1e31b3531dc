[package]
name = "otelapis"
version = "0.1.0"
edition = "2021"
publish = false

[dependencies]
async-channel = "=2.5.0"
opentelemetry-proto = { version = "=0.33.1", default-features = false, features = ["gen-tonic", "logs", "metrics", "trace"] }
tonic = "=0.14.6"

[dev-dependencies]
futures = "=0.3.34"
hyper-util = { version = "=0.1.21", features = ["tokio"] }
tokio = { version = "=1.54.1", features = ["io-util", "rt"] }
tower = { version = "=0.5.3", features = ["util"] }
