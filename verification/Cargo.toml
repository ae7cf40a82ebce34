[package]
name = "minimum_hw_project"
version = "1.0.6"
edition = "2021"
publish = false

[dependencies]
chrono = "0.4"
clap = { version = "4", features = ["derive"] }
colored = "2"
prost = "0.13"
rppal = "*"
tokio = { version = "1", features = ["rt-multi-thread", "macros", "signal", "time", "sync", "net"] }
tokio-stream = { version = "0.1", features = ["net", "sync"] }
tonic = "0.12"
