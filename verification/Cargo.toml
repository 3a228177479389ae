[package]
name = "cef"
version = "0.1.0"
edition = "2021"
publish = false

[dependencies]
cef-sys = "*"
log = "0.4"
chrono = { version = "0.4", default-features = false, features = ["std"] }
