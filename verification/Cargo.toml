[package]
name = "gaia"
version = "0.1.0"
edition = "2021"
publish = false

[dependencies]
subxt-signer = { version = "=0.51.1", default-features = false, features = ["sr25519", "std", "subxt", "native"] }
subxt = "=0.51.1"
tokio = { version = "=1.54.1", features = ["macros", "rt-multi-thread"] }
anyhow = "=1.0.104"
