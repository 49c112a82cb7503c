[package]
name = "cosmos-client"
version = "0.1.0"
edition = "2021"
publish = false

[dependencies]
sha2 = "0.10"
thiserror = "*"
tokio = { version = "1", features = ["time"] }

[dev-dependencies]
cosmos-sdk-proto = { version = "*", default-features = false }
