[package]
name = "dice_proto"
version = "0.1.0"
edition = "2021"
publish = false

[dependencies]
tokio-util = { version = "0.7", features = ["codec"] }
tokio = { version = "1", features = ["rt-multi-thread", "net", "sync", "time"] }
futures-util = { version = "0.3", features = ["sink"] }
crossbeam-channel = "0.5"
