[package]
name = "fs_writer"
version = "0.1.0"
edition = "2021"
publish = false

[dependencies]
clap = { version = "*", features = ["derive"] }
flate2 = "*"
glob = "*"
libc = "*"
log = "*"
memfd = "*"
simple_logger = "*"
tar = "*"
tempfile = "*"
