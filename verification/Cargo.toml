[package]
name = "rinstall"
version = "0.3.0"
edition = "2021"
publish = false

[dependencies]
blake3 = { version = "1", features = ["pure"] }
camino = "1"
semver = "1"
json = "0.12"
clap = { version = "4", features = ["derive", "env"] }
color-eyre = "0.6"
colored = "2"
log = "0.4"
serde = { version = "1", features = ["derive"] }
serde_yaml = "0.9"
walkdir = "2"
xdg = "2"
libc = "0.2"
tar = "0.4"
flate2 = "1"
