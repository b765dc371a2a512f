[package]
name = "pack_index"
version = "0.1.0"
edition = "2021"
publish = false

[dependencies]
hyper = { version = "*", features = ["client", "http1"] }
hyper-util = { version = "*", features = ["client", "client-legacy", "http1", "tokio"] }
hyper-tls = "*"
http-body-util = "*"
tokio = { version = "*", features = ["rt", "net", "time"] }
futures = "*"
minidom = "*"
clap = "*"
