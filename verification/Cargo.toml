[package]
name = "ringbahn_net"
version = "0.1.0"
edition = "2021"
publish = false

[dependencies]
nix = "0.23"
futures-core = "0.3"
futures-io = "0.3"
