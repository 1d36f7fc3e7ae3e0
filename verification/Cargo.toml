[package]
name = "getraenkekassengeraete"
version = "0.1.0"
edition = "2021"
publish = false

[dependencies]
tokio = { version = "1", features = ["sync", "rt", "macros", "time", "io-util"] }
tokio-fd = "*"
libc = "0.2"
nix = { version = "*", features = ["term"] }
