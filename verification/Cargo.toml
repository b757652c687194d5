[package]
name = "stellar-canary"
version = "0.1.1"
edition = "2021"
publish = false

[dependencies]
serde = { version = "=1.0.229", features = ["derive"] }
serde_json = "=1.0.154"
toml = "=1.1.8"
reqwest = { version = "=0.13.5", default-features = false }
tokio = { version = "=1.54.1", default-features = false, features = ["time", "rt"] }
stellar-xdr = { version = "=28.0.1", features = ["base64"] }
stellar-strkey = "=1.0.0"
