[package]
name = "pidone"
version = "0.1.0"
edition = "2021"
publish = false

[dependencies]
nix = { version = "*", features = ["signal", "process"] }
