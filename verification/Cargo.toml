[package]
name = "be_rcon"
version = "0.1.0"
edition = "2021"
publish = false

[dependencies]
crc = "1.8"
tokio = { version = "1", features = ["net", "sync", "time", "rt", "rt-multi-thread", "macros"] }
