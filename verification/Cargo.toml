[package]
name = "aiseg2_forwarder"
version = "0.1.0"
edition = "2021"
publish = false

[dependencies]
anyhow = "=1.0.104"
async-trait = "=0.1.92"
base64 = "=0.22.1"
chrono = "=0.4.45"
diqwest = "=3.2.0"
envy = "=0.4.2"
futures = "=0.3.34"
influxdb2 = { version = "=0.5.2", default-features = false, features = ["rustls"] }
reqwest = { version = "=0.13.5", default-features = false }
scraper = "=0.29.0"
serde = "=1.0.229"
serde_derive = "=1.0.229"
thiserror = "=1.0.69"
tokio = { version = "=1.54.1", features = ["full"] }
tracing = "=0.1.44"
tracing-subscriber = "=0.3.23"
