[package]
name = "point_rpc"
version = "0.1.0"
edition = "2021"
publish = false

[dependencies]
uuid = { version = "*", features = ["v4"] }
tokio = { version = "*", features = ["rt-multi-thread", "sync", "macros", "time"] }
tokio-util = "*"
crossbeam-channel = "*"
ctrlc = "*"
thiserror = "*"
