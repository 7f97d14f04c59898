[package]
name = "raft_blockchain"
version = "0.1.0"
edition = "2021"
publish = false

[dependencies]
base64 = "0.13"
bincode = "1"
clap = "2"
config = "0.10"
rust-crypto = "0.2"
ed25519-dalek = { version = "1", features = ["serde"] }
env_logger = "0.7"
log = "0.4"
prost = "0.5"
protobuf = "2"
raft = "0.6"
rand = "0.7"
serde = { version = "1", features = ["derive"] }
serde_derive = "1"
zmq = "0.9"
