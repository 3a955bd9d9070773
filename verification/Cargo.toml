[package]
name = "faucet_core"
version = "0.1.0"
edition = "2021"
publish = false

[dependencies]
fvm_shared = "*"
fvm_ipld_encoding = "*"
bls-signatures = "*"
libsecp256k1 = "*"
blake2b_simd = "*"
base64 = "*"
cid = "*"
url = "*"
serde = { version = "*", features = ["derive"] }
serde_json = "*"

[dev-dependencies]
multihash-codetable = { version = "*", features = ["blake2b"] }
hex = "*"
