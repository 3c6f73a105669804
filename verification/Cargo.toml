[package]
name = "veight"
version = "0.1.0"
edition = "2021"
publish = false

[dependencies]
dashmap = "6"
ijson = "0.1"
once_cell = "1"
pyo3 = { version = "*", features = ["extension-module", "abi3-py310"] }
pyo3-async-runtimes = { version = "*", features = ["tokio-runtime"] }
tokio = { version = "1", features = ["rt", "sync", "macros"] }
tokio-util = { version = "0.7", features = ["rt"] }
v8 = "*"
