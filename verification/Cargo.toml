[package]
name = "peervault_iroh"
version = "0.1.0"
edition = "2021"
publish = false

[dependencies]
iroh = "*"
serde_json = "*"
rand = "*"
tokio = { version = "*", default-features = false, features = ["rt", "sync", "macros"] }
