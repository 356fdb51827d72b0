[package]
name = "darkbet"
version = "0.1.0"
edition = "2021"
publish = false

[dependencies]
anchor-lang = "=0.31.2"
concordium-std = "=11.0.0"
