[package]
name = "lan_discovery"
version = "0.1.0"
edition = "2021"
publish = false

[dependencies]
anyhow = "*"
futures = "*"
pnet = "*"
tokio = { version = "*", features = ["macros", "net", "rt-multi-thread"] }

[dev-dependencies]
cidr-utils = "*"
serde_json = "*"
