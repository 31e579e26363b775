[package]
name = "taskvisor"
version = "0.1.0"
edition = "2021"
publish = false

[dependencies]
tokio = { version = "1", features = ["rt", "rt-multi-thread", "sync", "time", "macros", "signal"] }
tokio-util = { version = "0.7", features = ["rt"] }
futures-util = "0.3"
thiserror = "2"
