[package]
name = "vision_ocr"
version = "0.1.0"
edition = "2021"
publish = false

[dependencies]
anyhow = "*"
base64 = "*"
image = "*"
serde_json = "*"

[dependencies.reqwest]
version = "*"
default-features = false
features = ["json"]
