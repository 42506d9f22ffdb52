[package]
name = "exec_events"
version = "0.1.0"
edition = "2021"
publish = false

[dependencies]
metrics = "*"
nix = { version = "*", default-features = false }
tokio = { version = "1", default-features = false, features = ["process", "rt", "time"] }
tracing = { version = "*", default-features = false, features = ["std"] }
