[package]
name = "izolilib"
version = "0.1.0"
edition = "2021"
publish = false

[dependencies]
nix = { version = "*", features = ["sched", "mount", "hostname", "process"] }
tracing = "*"
tracing-subscriber = "*"
