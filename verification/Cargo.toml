[package]
name = "blockchain_sim"
version = "0.1.0"
edition = "2021"
publish = false

[dependencies]
chrono = "*"
clap = "*"
hex = "*"
rand = "*"
sha2 = "*"
