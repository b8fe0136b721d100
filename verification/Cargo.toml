[package]
name = "subtitle_merge"
version = "0.1.0"
edition = "2021"
publish = false

[dependencies]
anyhow = "=1.0.104"
clap = { version = "=4.6.7", features = ["derive"] }
console = "=0.16.6"
encoding_rs = "=0.8.42"
indicatif = "=0.17.11"

[dev-dependencies]
tempfile = "=3.27.0"
