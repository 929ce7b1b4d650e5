[package]
name = "two_party_rsa"
version = "0.1.0"
edition = "2021"
publish = false

[dependencies]
curv-kzen = "=0.10.0"
kzen-paillier = "=0.4.3"
zk-paillier = "=0.4.4"
