[package]
name = "ssh_relay"
version = "0.1.0"
edition = "2021"
publish = false

[dependencies]
ssh2 = "*"
nix = { version = "*", features = ["poll", "time"] }
