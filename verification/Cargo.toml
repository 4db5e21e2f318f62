[package]
name = "catalog_dump"
version = "0.1.0"
edition = "2021"
publish = false

[dependencies]
hickory-proto = { version = "0.24", default-features = false }
