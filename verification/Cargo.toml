[package]
name = "webview_ui"
version = "0.1.0"
edition = "2021"
publish = false

[dependencies]
parking_lot = "*"
pyo3 = "*"
serde = { version = "*", features = ["derive"] }
serde_json = "*"
tao = "*"
wry = "*"
