[package]
name = "async-fuse"
version = "0.11.4"
edition = "2021"
publish = false

[dependencies]
futures-core = "0.3"
