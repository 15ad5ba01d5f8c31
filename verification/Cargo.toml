[package]
name = "ordered_float"
version = "4.0.0"
edition = "2021"
publish = false

[dependencies]
num-traits = "*"
serde = "*"
