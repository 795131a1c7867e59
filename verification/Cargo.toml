[package]
name = "depsdev"
version = "0.1.0"
edition = "2021"
publish = false

[dependencies]
toml = "*"
serde_json = "*"
zed_extension_api = "*"
