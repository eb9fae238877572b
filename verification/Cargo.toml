[package]
name = "poseidon_sponge"
version = "0.1.0"
edition = "2021"
publish = false

[dependencies]
snarkvm-fields = "*"
snarkvm-curves = "*"
snarkvm-utilities = "*"
smallvec = "*"
