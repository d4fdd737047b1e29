[package]
name = "intent_builder"
version = "0.1.0"
edition = "2021"
publish = false

[dependencies]
ethers = { version = "=2.0.14", default-features = false, features = ["abigen"] }
