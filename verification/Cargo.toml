[package]
name = "filecat"
version = "0.1.0"
edition = "2021"
publish = false

[dependencies]
clap = { version = "4", features = ["derive"] }
cli-clipboard = "0.4"
ignore = "0.4"
