[package]
name = "hashchain"
version = "0.1.0"
edition = "2021"
publish = false

[dependencies]
bincode = "1"
sha1 = "0.6"
time = "0.3"
