[package]
name = "clip_capture"
version = "0.1.0"
edition = "2021"
publish = false

[dependencies]
chrono = "*"
device_query = "*"
gifski = { version = "*", default-features = false }
imgref = "*"
notify-rust = "*"
rgb = "*"
scrap = "*"
yaml-rust = "*"
