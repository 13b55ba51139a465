[package]
name = "tagtidy"
version = "0.1.0"
edition = "2021"
publish = false

[dependencies]
metaflac = "*"
titlecase = "*"
unic-normal = "*"
clap = { version = "*", features = ["derive"] }
colored = "*"
walkdir = "*"
