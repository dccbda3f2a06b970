[package]
name = "ha_node_agent"
version = "0.1.0"
edition = "2021"
publish = false

[dependencies]
http = "*"
uuid = "*"
tokio = { version = "*", features = ["time", "rt"] }
tracing = "*"
clap = { version = "*", features = ["derive"] }
chrono = "*"
prettytable-rs = "*"
