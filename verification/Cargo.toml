[package]
name = "nostr_relays"
version = "0.1.0"
edition = "2021"
publish = false

[dependencies]
url = "2"
nostr-sdk = "*"
tokio = { version = "1", features = ["rt-multi-thread", "macros"] }
