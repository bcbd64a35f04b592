[package]
name = "sensu"
version = "0.1.0"
edition = "2021"
publish = false

[dependencies]
hyper = "0.12"
regex = "1"
serde_json = "1"
tokio = "0.1"

[dev-dependencies]
itertools = "*"
