[package]
name = "stopwatch"
version = "0.1.0"
edition = "2021"
publish = false

[dependencies]
log = "0.4"
web-sys = { version = "0.3", features = ["Window", "Performance"] }
