[package]
name = "tg_kit"
version = "0.1.0"
edition = "2021"
publish = false

[dependencies]
regex = "1"
dashmap = "6"
tokio = { version = "1", features = ["sync", "macros", "rt-multi-thread", "signal", "time"] }
grammers-client = "*"
grammers-session = "*"
anyhow = "1"
async-trait = "*"
futures = "*"
log = "*"
linkme = "*"
