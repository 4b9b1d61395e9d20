[package]
name = "origin"
version = "0.1.0"
edition = "2021"
publish = false

[dependencies]
rustix = { version = "=1.1.5", features = ["param", "thread", "process", "mm"] }
