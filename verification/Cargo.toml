[package]
name = "test_command"
version = "0.1.0"
edition = "2021"
publish = false

[dependencies]
bytes = "1"
cfg-if = "1"
tokio = { version = "1", features = ["fs", "io-util", "macros", "process", "rt"] }
