[package]
name = "newrelic-telemetry"
version = "0.2.1"
edition = "2021"
publish = false

[dependencies]
anyhow = "1"
flate2 = "1"
futures = "0.3"
hyper = "0.13"
hyper-tls = "0.4"
log = "0.4"
serde = { version = "1", features = ["derive"] }
serde_json = "1"
tokio = { version = "0.2", features = ["full"] }
uuid = { version = "0.8", features = ["v4"] }
