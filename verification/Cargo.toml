[package]
name = "timekeeper"
version = "0.1.0"
edition = "2021"
publish = false

[dependencies]
chrono = "0.4"
lazy_static = "1.4"
pyo3 = "0.20"
tpom = "*"
