[package]
name = "onnx_session"
version = "0.1.0"
edition = "2021"
publish = false

[dependencies]
log = "=0.4.35"
ort = { version = "=2.0.0-rc.12", default-features = false, features = ["load-dynamic", "api-24"] }
