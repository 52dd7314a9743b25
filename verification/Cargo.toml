[package]
name = "elogger"
version = "0.1.0"
edition = "2021"
publish = false

[dependencies]
colored = "=2.2.0"
log = { version = "=0.4.34", features = ["std"] }
time = { version = "=0.3.55", features = ["formatting", "local-offset"] }
