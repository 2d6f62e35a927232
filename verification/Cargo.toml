[package]
name = "assume_role"
version = "0.1.0"
edition = "2021"
publish = false

[dependencies]
rust-ini = "*"
serde_json = "1"
dirs = "*"
structopt = "*"
