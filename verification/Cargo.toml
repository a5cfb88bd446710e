[package]
name = "tomori"
version = "0.1.0"
edition = "2021"
publish = false

[dependencies]
hex = "0.4"
wincode = "*"
serde = { version = "1", features = ["derive"] }
serde_json = "1"
tokio = { version = "1", features = ["macros", "rt-multi-thread", "time", "sync"] }
futures = "0.3"
libp2p = { version = "*", features = ["gossipsub", "mdns", "tokio", "tcp", "noise", "yamux", "macros", "ed25519"] }
zeromq = "0.4"
reqwest = { version = "0.12", default-features = false, features = ["json"] }
rocksdb = { version = "*", default-features = false }
