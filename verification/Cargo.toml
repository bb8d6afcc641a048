[package]
name = "trait_classes"
version = "0.1.0"
edition = "2021"
publish = false

[dependencies]
dafny-runtime = "*"
