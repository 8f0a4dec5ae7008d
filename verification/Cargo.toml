[package]
name = "smt_kvdb"
version = "0.1.0"
edition = "2021"
publish = false

[dependencies]
redb = "3"
tokio = { version = "1", features = ["rt"] }
turso = "*"
