[package]
name = "ring_mlsag"
version = "0.1.0"
edition = "2021"
publish = false

[dependencies]
aes = { version = "0.7.5", features = ["ctr"] }
async-trait = "0.1"
blake2 = "0.10"
curve25519-dalek = { version = "4.1", features = ["digest", "rand_core", "zeroize"] }
displaydoc = "0.2"
generic-array = "0.14"
hkdf = "0.12"
hmac = "0.12"
prost = "0.11"
rand_core = "0.6"
serde = { version = "1", features = ["derive"] }
sha2 = "0.10"
zeroize = "1"
