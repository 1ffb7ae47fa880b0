[package]
name = "toolchain_bootstrap"
version = "0.1.0"
edition = "2021"
publish = false

[dependencies]
url = "2"
clap = { version = "4", features = ["derive"] }
indicatif = "0.17"
reqwest = { version = "0.12", features = ["blocking"] }
sevenz-rust = "0.6"
zip = "2"
