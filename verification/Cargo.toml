[package]
name = "operator_host"
version = "0.1.0"
edition = "2021"
publish = false

[dependencies]
eyre = "*"
pyo3 = "*"
tokio = { version = "*", features = ["rt", "sync"] }
