[package]
name = "bottomless"
version = "0.1.0"
edition = "2021"
publish = false

[dependencies]
libsql-sys = "*"
tokio = { version = "1", features = ["sync", "rt", "time"] }
tracing = "0.1"
