[package]
name = "modscan"
version = "0.1.0"
edition = "2021"
publish = false

[dependencies]
anyhow = "=1.0.104"
colored = "=2.2.0"
ferinth = "=2.5.1"
furse = "=1.5.1"
itertools = "=0.10.5"
libium = "=1.19.2"
sha1 = "0.10"
