[package]
name = "ongeul"
version = "0.1.0"
edition = "2021"
publish = false

[dependencies]
json5 = "=1.3.1"
serde_json = "=1.0.151"
