[package]
name = "kubectl_check"
version = "0.1.0"
edition = "2021"
publish = false

[dependencies]
yaml-rust2 = "*"
atty = "*"
colored = "*"
