[package]
name = "timelock"
version = "0.1.0"
edition = "2021"
publish = false

[dependencies]
sha3 = "*"
alloy-primitives = "*"
alloy-sol-types = "*"
