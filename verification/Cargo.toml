[package]
name = "ext4_fuse_adapter"
version = "0.1.0"
edition = "2021"
publish = false

[dependencies]
ext4_rs = "*"
fuser = "*"
log = "*"
