[package]
name = "stepsampler"
version = "0.1.0"
edition = "2021"
publish = false

[dependencies]
hound = "*"
rubato = "*"
anyhow = "*"
argh = "*"
