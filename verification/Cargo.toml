[package]
name = "treelix"
version = "0.1.0"
edition = "2021"
publish = false

[dependencies]
anyhow = "1"
dashmap = "6"
futures-util = { version = "0.3", default-features = false, features = ["std", "async-await"] }
grep-regex = "0.1"
grep-searcher = "0.1"
ignore = "0.4"
log = "0.4"
regex-cursor = "0.1.5"
ropey = { version = "1.6.1", default-features = false, features = ["simd"] }
