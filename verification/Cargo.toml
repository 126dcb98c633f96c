[package]
name = "serial_adapter"
version = "0.1.0"
edition = "2021"
publish = false

[dependencies]
mio-serial = "=0.2.0"
tokio-core = "=0.1.18"
futures = "=0.1.31"
