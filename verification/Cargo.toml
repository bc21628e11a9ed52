[package]
name = "zksync_node"
version = "0.1.0"
edition = "2021"
publish = false

[dependencies]
anyhow = "=1.0.104"
async-trait = "=0.1.92"
futures = "=0.3.34"
serde = { version = "1", features = ["derive"] }
tokio = { version = "=1.54.1", features = ["rt", "rt-multi-thread", "sync", "time"] }
tracing = "=0.1.44"
zk_evm = "*"
