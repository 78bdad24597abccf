[package]
name = "utils"
version = "0.1.0"
edition = "2021"
publish = false

[dependencies]
libc = "0.2"
rustix = { version = "0.37", features = ["fs", "process"] }
anyhow = "1"
argh = "0.1"
owo-colors = "3"
