[package]
name = "kakarot_client"
version = "0.1.0"
edition = "2021"
publish = false

[dependencies]
starknet = "=0.6.0"
reqwest = { version = "0.11", default-features = false, features = ["json", "rustls-tls"] }
serde_json = "1"
futures = "0.3"
ruint = "=1.9.0"
