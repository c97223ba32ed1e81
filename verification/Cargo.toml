[package]
name = "aleph_node"
version = "0.1.0"
edition = "2021"
publish = false

[dependencies]
aleph-bft = "*"
anyhow = "1"
async-trait = "0.1"
clap = { version = "4", features = ["derive"] }
futures = "0.3"
log = "0.4"
parity-scale-codec = { version = "3", features = ["derive"] }
rand = "0.8"
rayon = "1"
serde_json = "1"
sp-core = "*"
tokio = { version = "1", features = ["io-util", "macros", "net", "rt", "rt-multi-thread", "sync", "time"] }
ws = "0.9"
