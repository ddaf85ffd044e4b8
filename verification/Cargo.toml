[package]
name = "opaque_ke"
version = "0.1.0"
edition = "2021"
publish = false

[dependencies]
curve25519-dalek = "=3.2.1"
sha2 = "0.9"
hmac = "0.11"
hkdf = "0.11"
subtle = "2.4"
rand = "0.8"
generic-array = "0.14"
voprf = "0.1"
