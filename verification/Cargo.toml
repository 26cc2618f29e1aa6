[package]
name = "oracle_core"
version = "0.1.0"
edition = "2021"
publish = false

[dependencies]
anyhow = "1"
clap = { version = "*", features = ["derive"] }
crossbeam = "*"
ergo-lib = "*"
exitcode = "*"
log = "0.4"
serde = { version = "1", features = ["derive"] }
serde_yaml = "*"
tokio = { version = "1", features = ["rt", "rt-multi-thread"] }
