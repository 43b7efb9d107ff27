[package]
name = "clamor_detach"
version = "0.1.0"
edition = "2021"
publish = false

[dependencies]
tiny-keccak = { version = "*", features = ["keccak"] }
ed25519-dalek = "*"
k256 = { version = "*", features = ["ecdsa"] }
parity-scale-codec = { version = "*", features = ["derive"] }
lazy_static = "*"

[dev-dependencies]
hex = "*"
