[package]
name = "disconnect_reason"
version = "0.1.0"
edition = "2021"
publish = false

[dependencies]
alloy-rlp = "0.3"
bytes = "1"
serde = { version = "1", features = ["derive"] }
thiserror = "1"

[dev-dependencies]
hex = "0.4"
snap = "1"
