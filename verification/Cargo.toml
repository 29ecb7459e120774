[package]
name = "rust_bench"
version = "0.1.0"
edition = "2021"
publish = false

[dependencies]
pyo3 = { version = "0.19", features = ["auto-initialize"] }
