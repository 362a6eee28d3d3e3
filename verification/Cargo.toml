[package]
name = "wdn_node"
version = "0.1.0"
edition = "2021"
publish = false

[dependencies]
hash-db = "=0.15.2"
keccak-hasher = "=0.15.3"
trie-db = "=0.23.1"
parity-scale-codec = "=3.7.5"
kvdb = "=0.11.0"
kvdb-rocksdb = "=0.15.2"
ethereum-types = "=0.13.1"
serde = { version = "=1.0.229", features = ["derive"] }
serde_derive = "=1.0.229"
serde_cbor = "=0.11.2"
serde_json = "=1.0.154"
rand = "=0.8.8"
toml = "=0.5.11"
log = "=0.4.34"
env_logger = "=0.9.3"
chrono = "=0.4.45"
futures = "=0.3.34"
async-std = "=1.13.2"
actix-web = { version = "=4.18.1", default-features = false, features = ["macros"] }
simple_asn1 = "=0.6.4"
rust-crypto = "=0.2.36"
termion = "=1.5.6"

[dev-dependencies]
kvdb-memorydb = "=0.11.0"
parity-util-mem = "=0.11.0"
