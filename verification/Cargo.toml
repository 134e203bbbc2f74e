[package]
name = "cachedhash"
version = "0.2.0"
edition = "2021"

[dev-dependencies]
nohash-hasher = "0.2"
