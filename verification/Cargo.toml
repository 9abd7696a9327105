[package]
name = "phase1_coordinator"
version = "0.1.0"
edition = "2021"
publish = false

[dependencies]
bip39 = "*"
ed25519-compact = "*"
rand = "0.8"
rusoto_core = { version = "0.48", default-features = false, features = ["rustls"] }
rusoto_credential = "0.48"
rusoto_s3 = { version = "0.48", default-features = false, features = ["rustls"] }
tokio = { version = "1", features = ["macros", "rt-multi-thread", "time", "io-util", "sync"] }
