[package]
name = "lighthouse"
version = "0.1.0"
edition = "2021"
publish = false

[dependencies]
anyhow = "1"
btleplug = "*"
clap = { version = "4", features = ["derive"] }
futures = "0.3"
tokio = { version = "1", features = ["macros", "rt"] }
uuid = "1"
