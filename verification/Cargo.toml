[package]
name = "xxhrs"
version = "0.1.0"
edition = "2021"
publish = false

[dependencies]
getrandom = "=0.2.17"
sha3 = "=0.10.9"
xxhash-rust = { version = "=0.8.19", features = ["xxh32", "xxh64", "xxh3", "const_xxh3"] }
