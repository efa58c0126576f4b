[package]
name = "civlike"
version = "0.1.0"
edition = "2021"
publish = false

[dependencies]
rand = "0.8"
bracket-lib = { version = "*", default-features = false, features = ["crossterm"] }
bracket-noise = "*"
