[package]
name = "dependency_remover"
version = "0.1.0"
edition = "2021"
publish = false

[dependencies]
regex = "1"
