[package]
name = "relayer"
version = "0.1.0"
edition = "2021"
publish = false

[dependencies]
sha2 = "*"
hex = "*"
serde_json = "*"
ethabi = "*"
ethers-core = "*"
ethers-providers = { version = "*", features = ["ws"] }
reqwest = { version = "*", features = ["json"] }
ibc-proto = "*"
prost = "*"
anyhow = "*"
async-trait = "*"
winterfell = "*"
winter-air = "*"
winter-math = "*"
winter-crypto = "*"
