[package]
name = "duplex_split"
version = "0.1.0"
edition = "2021"
publish = false

[dependencies]
async-trait = "0.1"
futures = { version = "0.3", features = ["bilock", "unstable"] }
