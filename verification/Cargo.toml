[package]
name = "rinstall"
version = "0.1.0"
edition = "2021"
publish = false

[dependencies]
clap = { version = "3", features = ["derive"] }
color-eyre = "0.6"
colored = "2"
json = "0.12"
libc = "0.2"
semver = "1"
serde = { version = "1", features = ["derive"] }
xdg = "2"
