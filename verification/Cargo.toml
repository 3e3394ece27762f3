[package]
name = "polywrap"
version = "0.1.0"
edition = "2021"
publish = false

[dependencies]
semver = "=1.0.28"
rmp = "=0.8.15"
rmpv = "=1.3.1"
rmp-serde = "=1.3.1"
serde = { version = "=1.0.229", features = ["derive"] }
serde_json = "=1.0.154"
serde_yaml = "=0.9.34"
serde_bytes = "=0.11.19"
thiserror = "=1.0.69"
polywrap_core = "=0.1.11"
polywrap_msgpack_serde = "=0.0.2"
