[package]
name = "pool_seeker"
version = "0.1.0"
edition = "2021"
publish = false

[dependencies]
alloy-primitives = "=1.7.3"
alloy-rpc-types-eth = "=1.8.3"
alloy-sol-types = "=1.7.3"
alloy-json-rpc = "=1.8.3"
alloy-pubsub = "=1.8.3"
alloy-transport-ws = "=1.8.3"
futures = "=0.3.34"
tokio = { version = "=1.54.1", features = ["rt", "sync", "macros"] }
url = "=2.5.8"
