[package]
name = "cry"
version = "0.1.0"
edition = "2021"
publish = false

[dependencies]
which = "*"
clap = { version = "*", features = ["derive"] }
serde = { version = "*", features = ["derive"] }
serde_json = "*"
