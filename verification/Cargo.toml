[package]
name = "socketcan"
version = "0.1.0"
edition = "2021"
publish = false

[dependencies]
itertools = "*"
libc = "*"
log = "*"
nix = { version = "*", features = ["net"] }
