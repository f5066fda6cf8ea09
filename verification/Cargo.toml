[package]
name = "ledger_race"
version = "0.1.0"
edition = "2021"
publish = false

[dependencies]
bip39 = "*"
bs58 = "*"
dashmap = "*"
ed25519-dalek = "1"
fastrand = "*"
hmac = "*"
reqwest = { version = "*", default-features = false, features = ["json"] }
serde = { version = "*", features = ["derive"] }
serde_json = "*"
sha2 = "*"
tokio = { version = "*", features = ["macros", "rt-multi-thread", "sync", "time"] }
uuid = { version = "*", features = ["v4"] }
