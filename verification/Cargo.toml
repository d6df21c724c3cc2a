[package]
name = "chord_dht"
version = "0.1.0"
edition = "2021"
publish = false

[dependencies]
bigint = "4"
byteorder = "1"
ring = "*"
