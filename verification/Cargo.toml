[package]
name = "dns_adapter"
version = "0.1.0"
edition = "2021"
publish = false

[dependencies]
hickory-resolver = "0.24"
trust-dns-resolver = "0.23"
once_cell = "1"
hyper = { version = "0.14", default-features = false, features = ["client", "http1", "tcp"] }
