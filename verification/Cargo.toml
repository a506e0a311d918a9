[package]
name = "astinel_backend"
version = "0.1.0"
edition = "2021"
publish = false

[dependencies]
serde = { version = "=1.0.229", features = ["derive"] }
serde_json = "=1.0.154"
toml = "=0.8.23"
glob = "=0.3.4"
sha2 = "=0.10.9"
hex = "=0.4.3"
base64 = "=0.22.1"
argon2 = "=0.5.3"
rand = "=0.8.8"
ed25519-dalek = { version = "=2.2.0", features = ["rand_core"] }
stellar-strkey = "=0.0.8"
uuid = { version = "=1.29.0", features = ["v4", "serde"] }
chrono = { version = "=0.4.45", features = ["serde"] }
clap = { version = "=4.6.7", features = ["derive"] }
jsonwebtoken = "=9.3.1"
thiserror = "=1.0.69"
indexmap = "=2.14.2"
async-trait = "=0.1.92"
tokio = { version = "=1.54.1", features = ["sync", "fs", "rt-multi-thread", "macros", "time", "process"] }
reqwest = { version = "=0.12.28", default-features = false, features = ["json"] }
redis = { version = "0.27", default-features = false, features = ["tokio-comp", "connection-manager"] }
