[package]
name = "aqueduct"
version = "0.1.0"
edition = "2021"
publish = false

[dependencies]
lazy_id = "*"
once_cell = "1"
tokio = { version = "1", features = ["rt-multi-thread", "sync"] }
proc-macro2 = "1"
quote = "1"
syn = { version = "2", features = ["full"] }
