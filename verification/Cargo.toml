[package]
name = "minimizer"
version = "0.1.0"
edition = "2021"
publish = false

[dependencies]
rand = "*"
rhai = "*"
clap = { version = "*", features = ["derive"] }
