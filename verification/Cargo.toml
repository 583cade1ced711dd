[package]
name = "monitor_runner"
version = "0.1.0"
edition = "2021"
publish = false

[dependencies]
clap = { version = "*", features = ["env"] }
nix = { version = "*", features = ["signal", "process"] }
