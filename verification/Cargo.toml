[package]
name = "autosort"
version = "0.1.0"
edition = "2021"
publish = false

[dependencies]
keyring = { version = "=3.6.3", default-features = false }
tiny_http = "=0.12.0"
