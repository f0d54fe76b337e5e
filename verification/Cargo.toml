[package]
name = "zcash_numi_sdk"
version = "0.1.0"
edition = "2021"
publish = false

[dependencies]
base64 = "=0.22.1"
clap = { version = "=4.6.7", features = ["derive"] }
dirs = "=7.0.0"
getrandom = "=0.2.17"
hex = "=0.4.3"
rand = "=0.10.3"
reqwest = { version = "=0.13.5", default-features = false, features = ["json"] }
rusqlite = "=0.37.0"
secrecy = "=0.8.0"
serde = { version = "=1.0.229", features = ["derive"] }
serde_json = "=1.0.154"
thiserror = "=2.0.21"
tokio = { version = "=1.54.1", features = ["macros", "rt-multi-thread", "sync", "time"] }
tonic = "=0.14.6"
tracing = "=0.1.44"
tracing-subscriber = { version = "=0.3.23", features = ["env-filter"] }
zcash_address = "=0.14.0"
zcash_client_backend = { version = "=0.25.0", features = ["lightwalletd-tonic", "orchard", "transparent-inputs"] }
zcash_client_sqlite = { version = "=0.23.0", features = ["orchard", "transparent-inputs"] }
zcash_keys = { version = "=0.17.0", features = ["orchard", "sapling", "transparent-inputs"] }
zcash_primitives = "=0.31.0"
zcash_protocol = "=0.11.0"
zcash_transparent = "=0.11.0"
zip32 = "=0.3.0"
zip321 = "=0.10.0"
