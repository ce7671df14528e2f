[package]
name = "pharos"
version = "0.5.3"
edition = "2021"
publish = false

[dependencies]
futures = { version = "0.3", default-features = false, features = ["std", "executor"] }
