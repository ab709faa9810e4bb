[package]
name = "autd3capi-link-soem"
version = "0.1.0"
edition = "2021"
publish = false

[dependencies]
autd3-link-soem = { version = "=35.0.1", features = ["local", "remote", "blocking"] }
autd3capi-driver = "=35.0.1"
libc = "=0.2.174"
thread-priority = "=2.1.1"
tracing-subscriber = { version = "=0.3.23", features = ["env-filter"] }
