[package]
name = "btrfs_inspect"
version = "0.1.0"
edition = "2021"
publish = false

[dependencies]
bitflags = "2"
nix = { version = "0.29", features = ["fs", "ioctl"] }
