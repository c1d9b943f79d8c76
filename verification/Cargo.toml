[package]
name = "script_runner"
version = "0.1.0"
edition = "2021"
publish = false

[dependencies]
pyo3 = { version = "0.25", features = ["auto-initialize"] }
