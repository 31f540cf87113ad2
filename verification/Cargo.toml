[package]
name = "drift_stream"
version = "0.1.0"
edition = "2021"
publish = false

[dependencies]
ahash = "=0.8.12"
anchor-lang = { version = "=0.31.2", default-features = false }
bincode = "=1.3.3"
bytemuck = "=1.25.2"
futures-util = { version = "=0.3.34", default-features = false, features = ["std"] }
log = "=0.4.35"
serde = { version = "=1.0.229", features = ["derive"] }
solana-hash = { version = "=2.3.0", features = ["serde"] }
solana-pubkey = { version = "=2.4.0", features = ["serde"] }
solana-rpc-client-api = { version = "=2.2.20", default-features = false }
solana-signature = { version = "=2.3.0", features = ["serde"] }
solana-transaction = { version = "=2.2.3", features = ["serde"] }
thiserror = "=2.0.21"
tokio = { version = "=1.54.1", default-features = false, features = ["rt", "macros", "sync", "time"] }
zmq = "=0.10.0"
