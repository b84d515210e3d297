[package]
name = "test_utilities"
version = "0.1.0"
edition = "2021"
publish = false

[dependencies]
rocksdb = { version = "*", default-features = false }
tempfile = "3"
