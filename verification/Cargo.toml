[package]
name = "meta_contract"
version = "0.1.0"
edition = "2021"
publish = false

[dependencies]
ethabi = "=18.0.0"
hex = "=0.4.3"
log = "=0.4.34"
marine-rs-sdk = { version = "=0.14.0", features = ["logger"] }
serde = { version = "=1.0.229", features = ["derive"] }
serde_json = "=1.0.154"
