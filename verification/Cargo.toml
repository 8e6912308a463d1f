[package]
name = "async_dnssd"
version = "0.1.0"
edition = "2021"
publish = false

[dependencies]
futures = "0.1"
tokio-core = "0.1"
mio = "0.6"
