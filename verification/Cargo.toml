[package]
name = "unwinding"
version = "0.1.0"
edition = "2021"
publish = false

[dependencies]
gimli = { version = "0.32", default-features = false, features = ["read"] }
libc = "0.2"
