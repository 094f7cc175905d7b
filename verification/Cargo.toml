[package]
name = "leo_passes"
version = "0.1.0"
edition = "2021"
publish = false

[dependencies]
itertools = "0.10"
leo-ast = "~1.7"
leo-errors = "~1.7"
leo-span = "~1.7"
