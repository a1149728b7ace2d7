[package]
name = "webtransport_lag_investigation"
version = "0.1.0"
edition = "2021"
publish = false

[dependencies]
anyhow = "1"
bytes = "1"
flume = "0.11"
futures = "0.3"
h3 = "=0.0.3"
h3-quinn = "=0.0.4"
h3-webtransport = "=0.1.0"
http = "0.2"
quinn = "0.10"
rustls = "0.21"
rustls-pemfile = "1.0"
tokio = { version = "1", features = ["macros", "rt-multi-thread", "signal", "time"] }
tracing = "0.1"
tracing-subscriber = { version = "0.3", features = ["env-filter"] }
