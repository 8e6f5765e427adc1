[package]
name = "ecdsa_secp256k1"
version = "0.1.0"
edition = "2021"
publish = false

[dependencies]
openssl = "=0.10.81"
simple_asn1 = "=0.5.4"
prometheus = { version = "=0.13.4", default-features = false }
zeroize = "=1.8.2"
