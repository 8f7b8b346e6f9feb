[package]
name = "dnsbench"
version = "0.1.0"
edition = "2021"
publish = false

[dependencies]
anyhow = "*"
clap = { version = "4", features = ["derive"] }
csv = "*"
futures = "*"
hickory-resolver = "0.24"
indicatif = "*"
reqwest = { version = "*", default-features = false, features = ["json"] }
serde = { version = "*", features = ["derive"] }
serde_json = "*"
tokio = { version = "*", features = ["rt-multi-thread", "macros", "sync", "time"] }
url = "*"
