[package]
name = "bodhiproxy"
version = "0.1.0"
edition = "2021"
publish = false

[dependencies]
axum = "0.7"
pyo3 = "0.20"
pyo3-asyncio = { version = "0.20", features = ["tokio-runtime"] }
thiserror = "1"
tokio = { version = "1", features = ["full"] }
tower-http = { version = "0.5", features = ["timeout", "trace"] }
