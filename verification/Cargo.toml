[package]
name = "det_bypass"
version = "0.1.0"
edition = "2021"
publish = false

[dependencies]
rand = "=0.8.8"
clap = { version = "=4.6.7", features = ["derive"] }
libc = "=0.2.191"
network-types = "=0.2.0"
xsk-rs = "*"
