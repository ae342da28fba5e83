[package]
name = "tidec"
version = "0.1.0"
edition = "2021"
publish = false

[dependencies]
inkwell = "*"
tracing = "*"
tracing-subscriber = { version = "*", features = ["env-filter"] }
