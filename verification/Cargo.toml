[package]
name = "hypha"
version = "0.1.0"
edition = "2021"
publish = false

[dependencies]
clap = { version = "=4.6.7", features = ["derive"] }
crossbeam = "=0.8.5"
dasp = { version = "=0.11.0", features = ["signal"] }
futures = "=0.3.34"
iroh = { version = "=1.4.1", default-features = false, features = ["tls-ring"] }
log = "=0.4.35"
rancor = "=0.1.3"
tokio = { version = "=1.54.1", features = ["full"] }
tracing = "=0.1.44"
tracing-appender = "=0.2.5"
tracing-error = "=0.2.1"
tracing-subscriber = { version = "=0.3.23", features = ["env-filter"] }
