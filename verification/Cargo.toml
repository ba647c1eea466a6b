[package]
name = "tally_vm"
version = "0.1.0"
edition = "2021"
publish = false

[dependencies]
home = "*"
tokio = { version = "*", default-features = false, features = ["rt-multi-thread", "net", "time"] }
tracing = "*"
tracing-appender = "*"
tracing-subscriber = { version = "*", features = ["env-filter"] }
wasmer = { version = "=6.1.0", default-features = false, features = ["sys", "cranelift"] }
