[package]
name = "airo_wingman"
version = "0.1.0"
edition = "2021"
publish = false

[dependencies]
async-trait = "=0.1.92"
dashmap = "=6.2.1"
reqwest = { version = "=0.12.28", default-features = false, features = ["json"] }
serde = { version = "=1.0.229", features = ["derive"] }
serde_json = "=1.0.154"
subxt = "=0.37.0"
subxt-signer = { version = "0.37", default-features = false, features = ["sr25519", "subxt", "std"] }
thiserror = "=1.0.69"
tokio = { version = "=1.54.1", features = ["macros", "rt-multi-thread", "signal", "sync", "time", "net"] }
tokio-util = { version = "=0.7.20", features = ["rt"] }
tracing = "=0.1.44"
