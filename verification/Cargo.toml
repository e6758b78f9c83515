[package]
name = "data_aggregation"
version = "0.1.0"
edition = "2021"
publish = false

[dependencies]
rand = "*"
tokio = { version = "*", features = ["full"] }
clap = { version = "*", features = ["derive"] }
color-print = "*"
terminal_size = "*"
