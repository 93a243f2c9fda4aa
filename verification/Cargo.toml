[package]
name = "suzume"
version = "0.1.0"
edition = "2021"
publish = false

[dependencies]
base64 = "0.13"
failure = "0.1"
openssl = "0.10"
serde = "1"
serde_derive = "1"
serde_json = "1"
time = "0.1"
