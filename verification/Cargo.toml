[package]
name = "basic_auth_gate"
version = "0.1.0"
edition = "2021"
publish = false

[dependencies]
base64 = "=0.22.1"
futures = "=0.3.34"
gotham = "=0.8.1"
hyper = "=1.12.0"
mime = "=0.3.17"
