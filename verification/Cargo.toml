[package]
name = "namada_indexer"
version = "0.1.0"
edition = "2021"
publish = false

[dependencies]
hex = { version = "=0.4.3", features = ["serde"] }
serde = { version = "=1.0.229", features = ["derive"] }
serde_json = "=1.0.154"
sqlx = { version = "0.8", default-features = false, features = ["postgres", "json"] }
tendermint = { version = "=0.41.0", default-features = false }
tendermint-rpc = { version = "=0.41.0", default-features = false }
