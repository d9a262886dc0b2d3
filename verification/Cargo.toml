[package]
name = "function_run"
version = "0.1.0"
edition = "2021"
publish = false

[dependencies]
serde_json = "1"
toml = "*"
dkregistry = { version = "*", default-features = false, features = ["reqwest-rustls"] }
reqwest = { version = "0.11", default-features = false, features = ["rustls-tls"] }
futures = "0.3"
home = "*"
tokio = { version = "1", features = ["rt-multi-thread", "macros"] }
