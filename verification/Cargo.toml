[package]
name = "ltk_tex"
version = "0.1.0"
edition = "2021"
publish = false

[dependencies]
league-toolkit = "*"
image = "*"
clap = { version = "*", features = ["derive"] }
eyre = "*"
colored = "*"
tracing = "*"
tracing-subscriber = "*"
