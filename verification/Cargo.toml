[package]
name = "zally-wallet"
version = "0.1.0"
edition = "2021"
publish = false

[dependencies]
futures-util = "=0.3.34"
hex = "=0.4.3"
parking_lot = "=0.13.0"
serde = { version = "1", features = ["derive"] }
thiserror = "=2.0.21"
tokio = { version = "=1.54.1", features = ["rt", "sync", "time", "macros"] }
tokio-stream = { version = "=0.1.19", features = ["sync"] }
tracing = "=0.1.44"
zcash_address = "=0.14.0"
zcash_client_backend = { version = "=0.25.0", default-features = false, features = ["orchard"] }
zcash_keys = { version = "=0.17.0", features = ["sapling", "orchard"] }
zcash_protocol = { version = "=0.11.0", features = ["local-consensus"] }
zip32 = "=0.3.0"
zip321 = "=0.10.0"
