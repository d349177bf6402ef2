[package]
name = "omnyssh_core"
version = "0.1.0"
edition = "2021"
publish = false

[dependencies]
anyhow = "1"
async-trait = "0.1"
dirs = "5"
russh = "0.46"
tokio = { version = "1", features = ["rt", "rt-multi-thread", "time", "net", "io-util", "macros"] }
tracing = "0.1"
