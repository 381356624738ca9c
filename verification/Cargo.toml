[package]
name = "silver_network"
version = "0.1.0"
edition = "2021"
publish = false

[dependencies]
sha2 = "0.10"
dashmap = "5.5"
libp2p = { version = "0.53", default-features = false, features = ["gossipsub", "kad"] }
multiaddr = "0.18"
serde = { version = "1", features = ["derive"] }
bincode = "1"
tokio = { version = "1", features = ["net", "rt", "time", "io-util", "sync", "macros"] }
thiserror = "1"
tracing = "0.1"
