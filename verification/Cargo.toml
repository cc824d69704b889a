[package]
name = "hemion"
version = "0.1.0"
edition = "2021"
publish = false

[dependencies]
hex = "=0.4.3"
sha2 = "=0.10.9"
sha3 = "=0.10.9"
blake2 = "=0.10.6"
bs58 = "=0.5.1"
base64 = "=0.22.1"
secp256k1 = "=0.29.1"
ed25519-dalek = "=2.2.0"
bitcoin = "=0.32.102"
rand = "=0.8.8"
uuid = { version = "=1.29.0", features = ["v4"] }
chrono = "=0.4.45"
thiserror = "=1.0.69"
zeroize = "=1.9.1"
