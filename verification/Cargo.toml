[package]
name = "shutdown_supervisor"
version = "0.1.0"
edition = "2021"
publish = false

[dependencies]
color-eyre = "0.6"
tokio = { version = "1", features = ["macros", "rt-multi-thread", "signal", "sync", "time"] }
