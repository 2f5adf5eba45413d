[package]
name = "tlsec"
version = "0.1.0"
edition = "2021"
publish = false

[dependencies]
bytes = "1"
ring = "0.17"
webpki = "0.22"
