[package]
name = "sozu_client"
version = "0.1.0"
edition = "2021"
publish = false

[dependencies]
sozu-command-lib = "*"
serde_json = "1"
bb8 = "*"
tokio = { version = "1", features = ["fs", "io-util", "sync", "time", "rt", "rt-multi-thread"] }
async-trait = "*"
mio = { version = "*", features = ["net", "os-poll"] }
tempdir = "*"
tempfile = "*"
