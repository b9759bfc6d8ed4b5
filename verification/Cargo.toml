[package]
name = "sunrise_core"
version = "0.1.0"
edition = "2021"
publish = false

[dependencies]
num-traits = "0.2"
anchor-lang = "0.29.0"
anchor-spl = "0.29.0"
