[package]
name = "binance-client"
version = "0.1.0"
edition = "2021"
publish = false

[dependencies]
log = "0.4"
rust_decimal = "1"
serde = { version = "1", features = ["derive"] }
serde_derive = "1"
serde_json = "1"
websocket = { version = "*", default-features = false, features = ["sync", "sync-ssl"] }
