[package]
name = "fes"
version = "0.1.0"
edition = "2021"
publish = false

[dependencies]
clap = "2"
futures = "0.3"
hyper = "0.13"
reqwest = "0.10"
rust-crypto = "0.2"
tokio = { version = "0.2", features = ["full"] }
