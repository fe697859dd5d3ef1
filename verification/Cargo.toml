[package]
name = "ddtr"
version = "0.1.0"
edition = "2021"
publish = false

[dependencies]
baidu_trans = { version = "*", features = ["aio"] }
clap = { version = "4", features = ["derive"] }
serde = { version = "1", features = ["derive"] }
serde_json = "1"
tokio = { version = "1", features = ["rt", "rt-multi-thread", "macros", "fs", "io-util", "sync", "time"] }
