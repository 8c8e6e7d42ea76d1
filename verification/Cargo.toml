[package]
name = "v4l2_expbuf"
version = "0.1.0"
edition = "2021"
publish = false

[dependencies]
nix = { version = "*", features = ["ioctl"] }
libc = "*"
