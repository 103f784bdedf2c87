[package]
name = "pwner"
version = "0.1.8"
edition = "2021"
publish = false

[dependencies]
nix = { version = "*", features = ["signal", "process"] }
tokio = { version = "1", features = ["process", "time", "rt", "io-util"] }
