[package]
name = "sei_tester"
version = "0.1.0"
edition = "2021"
publish = false

[dependencies]
cosmwasm-std = "1"
cw2 = "1"
sei-cosmwasm = "*"
protobuf = "*"

[dev-dependencies]
serde_json = "1"
