[package]
name = "cln_nip47"
version = "0.1.0"
edition = "2021"
publish = false

[dependencies]
anyhow = "*"
cln-plugin = "*"
cln-rpc = "*"
hex = "*"
log = "*"
log-panics = "*"
nostr-sdk = { version = "*", features = ["nip04", "nip44", "nip47"] }
parking_lot = "*"
regex = "*"
serde = { version = "*", features = ["derive"] }
serde_json = "*"
tokio = { version = "*", features = ["rt-multi-thread", "macros", "sync", "time", "io-std"] }
tonic = "*"
uuid = { version = "*", features = ["v4"] }
