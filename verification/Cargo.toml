[package]
name = "call_logger"
version = "0.1.0"
edition = "2021"
publish = false

[dependencies]
chrono = "=0.4.45"
log = { version = "=0.4.34", features = ["kv", "std"] }
ureq = { version = "=2.12.1", default-features = false }
