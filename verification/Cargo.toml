[package]
name = "escrow"
version = "0.1.0"
edition = "2021"
publish = false

[dependencies]
anchor-lang = "=1.1.2"
anchor-spl = "=1.1.2"
