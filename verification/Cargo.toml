[package]
name = "waterman"
version = "0.1.0"
edition = "2021"
publish = false

[dependencies]
anyhow = "1"
colored = "2"
git-version = "0.3"
serialport = { version = "4", default-features = false }
structopt = "0.3"
