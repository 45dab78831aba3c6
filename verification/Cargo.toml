[package]
name = "cdumay_yaml"
version = "0.1.0"
edition = "2021"
publish = false

[dependencies]
cdumay_core = "=0.1.7"
serde-value = "=0.7.0"
serde_yaml = "=0.8.26"
