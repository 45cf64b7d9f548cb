[package]
name = "rawrxd"
version = "0.1.0"
edition = "2021"
publish = false

[dependencies]
aho-corasick = "1"
thiserror = "1"
time = "0.3"
