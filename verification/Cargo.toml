[package]
name = "cfxcore"
version = "0.1.0"
edition = "2021"
publish = false

[dependencies]
cfx-types = "=0.1.0"
keccak-hash = "=0.10.0"
parking_lot = "=0.12.5"
rlp = "=0.4.6"
rlp-derive = "=0.1.0"
serde = { version = "=1.0.229", features = ["derive"] }
