[package]
name = "punter"
version = "0.1.0"
edition = "2021"
publish = false

[dependencies]
toml = "0.8"
dirs = "=5.0.1"
structopt = "=0.3.26"
failure = "=0.1.8"
