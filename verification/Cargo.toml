[package]
name = "p2p_file"
version = "0.1.0"
edition = "2021"
publish = false

[dependencies]
libp2p = { version = "=0.53.2", features = ["tcp", "tokio", "noise", "yamux", "request-response", "gossipsub", "macros"] }
tokio = { version = "1", features = ["full"] }
futures = "0.3"
async-trait = "0.1"
