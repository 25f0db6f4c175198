[package]
name = "xcfg"
version = "0.1.0"
edition = "2021"
publish = false

[dependencies]
serde = "1"
serde_json = "1"
serde_yml = "0.0"
signal-hook = "0.3"
thiserror = "1"
toml = "0.8"
