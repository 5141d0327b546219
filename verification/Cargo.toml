[package]
name = "iota-lite-poc"
version = "0.1.0"
edition = "2021"
publish = false

[dependencies]
anyhow = "1"
clap = { version = "4", features = ["derive", "env"] }
iota-sdk-grpc-client = "1.0.0-rc.2"
iota-sdk-grpc-types = "1.0.0-rc.1"
iota-sdk-types = { version = "1.0.0-rc.2", features = ["serde", "hash"] }
iota-sdk-crypto = { version = "1.0.0-rc.2", features = ["bls12381"] }
serde = { version = "1", features = ["derive"] }
serde_json = "1"
tokio = { version = "1", features = ["macros", "rt"] }
