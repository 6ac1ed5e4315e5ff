[package]
name = "sideko"
version = "0.1.0"
edition = "2021"
publish = false

[dependencies]
flate2 = "*"
tar = "*"
shlex = "*"
keyring = "*"
serde_json = "*"
dotenvy = "*"
