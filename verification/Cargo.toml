[package]
name = "ftpy"
version = "0.1.0"
edition = "2021"
publish = false

[dependencies]
tokio = { version = "1", features = ["full"] }
tokio-util = { version = "0.7", features = ["rt"] }
chrono = "0.4"
clap = { version = "4", features = ["derive"] }
