[package]
name = "dont"
version = "0.1.0"
edition = "2021"
publish = false

[dependencies]
cfg-if = "*"
clap = { version = "3", features = ["derive"] }
which = "*"
