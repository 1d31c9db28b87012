[package]
name = "pqseal"
version = "0.1.0"
edition = "2021"
publish = false

[dependencies]
aes-gcm = "=0.10.3"
hkdf = "=0.13.0"
pqc_dilithium = "=0.2.0"
rand = "=0.8.8"
safe_pqc_kyber = "=0.6.3"
sha2 = "=0.11.0"
zstd = "=0.14.0"
