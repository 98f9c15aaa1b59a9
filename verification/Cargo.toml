[package]
name = "xodus_auth"
version = "0.1.0"
edition = "2021"
publish = false

[dependencies]
xal = "=0.1.3"
p256 = "=0.13.2"
rand = "=0.8.8"
keyring-core = "=1.0.1"
log = "=0.4.35"
reqwest = "=0.13.5"
