[package]
name = "llrt_fetch"
version = "0.1.0"
edition = "2021"
publish = false

[dependencies]
hyper = { version = "=1.12.0", features = ["client", "http1"] }
http-body-util = "=0.1.5"
bytes = "=1.12.1"
tokio = { version = "=1.54.1", features = ["macros", "rt", "sync", "time"] }
rquickjs = "=0.14.0"
