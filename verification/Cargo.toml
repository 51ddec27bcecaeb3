[package]
name = "opaque_envelope"
version = "0.1.0"
edition = "2021"
publish = false

[dependencies]
hkdf = "=0.12.4"
hmac = "=0.12.1"
sha2 = "=0.10.9"
rand = "=0.8.8"
scrypt = "=0.12.0"
voprf = { version = "=0.5.0", features = ["ristretto255"] }
