[package]
name = "audiocast"
version = "0.1.0"
edition = "2021"
publish = false

[dependencies]
opus = "*"
ringbuf = "*"
crossbeam-channel = "*"
tokio = { version = "*", features = ["rt", "sync", "time", "macros", "io-util"] }
