[package]
name = "ddns"
version = "0.1.0"
edition = "2021"
publish = false

[dependencies]
cloudflare = "0.9"
structopt = "0.3"
