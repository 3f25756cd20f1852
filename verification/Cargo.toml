[package]
name = "periodic_epoch"
version = "0.1.0"
edition = "2021"
publish = false

[dependencies]
chrono = "=0.4.45"
pyo3 = { version = "=0.17.3", features = ["chrono"] }
timely = "=0.12.0"
