[package]
name = "arb_bot"
version = "0.1.0"
edition = "2021"
publish = false

[dependencies]
rust_decimal = "=1.40.0"
tokio = { version = "=1.54.1", features = ["full"] }
tracing = "=0.1.44"
tracing-subscriber = { version = "=0.3.23", features = ["env-filter"] }
dotenvy = "=0.15.7"
futures = "=0.3.34"
rustls = { version = "=0.23.46", features = ["ring"] }
kalshi-rs = "=0.2.1"
