[package]
name = "passthrufs"
version = "0.1.0"
edition = "2021"
publish = false

[dependencies]
env_logger = "*"
fuse = "0.3.1"
libc = "0.2"
log = "*"
time = "0.1"
