[package]
name = "superrepo"
version = "0.1.0"
edition = "2021"
publish = false

[dependencies]
dirs = "5"
git2 = { version = "0.18", default-features = false }
