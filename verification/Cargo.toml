[package]
name = "carcount"
version = "0.1.0"
edition = "2021"
publish = false

[dependencies]
base64 = "0.13"
directories = "4"
pyo3 = { version = "0.20", features = ["auto-initialize"] }
