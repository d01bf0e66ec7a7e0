[package]
name = "todo_client"
version = "0.1.0"
edition = "2021"
publish = false

[dependencies]
clap = { version = "*", features = ["derive"] }
colored_json = "*"
http-body-util = "*"
hyper = { version = "*", features = ["client", "http1"] }
hyper-util = { version = "*", features = ["client", "client-legacy", "http1", "tokio"] }
serde_json = "*"
tokio = { version = "*", features = ["rt-multi-thread", "macros"] }
yansi = "*"
