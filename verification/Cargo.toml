[package]
name = "ntbindings"
version = "0.1.0"
edition = "2021"
publish = false

[dependencies]
anyhow = "=1.0.104"
async-trait = "=0.1.92"
ed25519-dalek = "=1.0.1"
hex = "=0.4.3"
once_cell = "=1.21.4"
reqwest = { version = "=0.11.27", default-features = false }
serde = { version = "=1.0.229", features = ["derive"] }
serde_json = "=1.0.151"
thiserror = "=1.0.69"
tokio = { version = "=1.53.2", features = ["rt-multi-thread", "sync", "time", "macros"] }
