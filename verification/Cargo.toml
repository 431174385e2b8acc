[package]
name = "sui_source"
version = "0.1.0"
edition = "2021"
publish = false

[dependencies]
async-trait = "=0.1.92"
fluxus = { version = "=0.2.0", features = ["fluxus-sources", "fluxus-utils"] }
serde = { version = "=1.0.229", features = ["derive"] }
sui-sdk = "=0.0.0"
tokio = { version = "=1.54.1", features = ["time"] }
tracing = "=0.1.44"
