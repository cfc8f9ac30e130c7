[package]
name = "v8_spy"
version = "0.1.0"
edition = "2021"
publish = false

[dependencies]
anyhow = "=1.0.104"
log = "=0.4.34"
regex = "=1.13.1"
remoteprocess = "=0.5.5"
spytools = "=0.5.0"

[dev-dependencies]
nix = { version = "=0.31.3", default-features = false, features = ["process"] }
