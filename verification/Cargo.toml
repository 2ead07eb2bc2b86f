[package]
name = "rfapi"
version = "0.1.0"
edition = "2021"
publish = false

[dependencies]
dropshot = "=0.17.1"
http = "=1.5.0"
hyper = "=1.12.0"
lazy_static = "=1.5.1"
schemars = "=0.8.22"
semver = "=1.0.28"
serde = { version = "=1.0.229", features = ["derive"] }
tokio = { version = "=1.53.2", features = ["rt-multi-thread", "macros"] }
