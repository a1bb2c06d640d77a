[package]
name = "broadcaster"
version = "0.1.0"
edition = "2021"
publish = false

[dependencies]
bytes = "*"
rml_rtmp = "*"
fdk-aac = "*"
crossbeam-channel = "*"
tokio = { version = "*", features = ["rt-multi-thread", "net", "time", "io-util", "macros"] }
