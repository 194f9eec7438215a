[package]
name = "rosepine"
version = "0.1.0"
edition = "2021"
publish = false

[dependencies]
heck = "*"
anyhow = "*"
clap = { version = "4", features = ["derive"] }
