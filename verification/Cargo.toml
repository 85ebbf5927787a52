[package]
name = "countup"
version = "0.1.0"
edition = "2021"
publish = false

[dependencies]
chrono = "=0.4.45"
clap = { version = "=4.6.7", features = ["cargo"] }
color-eyre = "=0.6.5"
pixels-graphics-lib = "=0.11.7"
