[package]
name = "dianyaapi"
version = "0.1.0"
edition = "2021"
publish = false

[dependencies]
pyo3 = "*"
pyo3-async-runtimes = { version = "*", features = ["tokio-runtime"] }
serde = { version = "*", features = ["derive"] }
serde_json = "*"
stream-cancel = "*"
tokio = { version = "*", features = ["full"] }
tokio-stream = "*"
tungstenite = "*"
