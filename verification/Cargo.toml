[package]
name = "reth_db_client"
version = "0.1.0"
edition = "2021"
publish = false

[dependencies]
url = "=2.5.8"
alloy-primitives = "=1.7.3"
alloy-eips = "=2.5.0"
alloy-consensus = "=2.5.0"
alloy-rpc-types-eth = "=2.5.0"
alloy-provider = { version = "=2.5.0", default-features = false, features = ["ipc", "reqwest"] }
tokio = { version = "=1.54.1", features = ["rt", "sync", "time", "macros"] }
parking_lot = "=0.12.5"
futures = "=0.3.34"
eyre = "=0.6.14"
thiserror = "=2.0.21"
