[package]
name = "paket"
version = "0.1.0"
edition = "2021"
publish = false

[dependencies]
clap = { version = "*", features = ["derive"] }
dirs = "*"
libc = "*"
semver = "*"
sysinfo = "*"
toml = "*"
