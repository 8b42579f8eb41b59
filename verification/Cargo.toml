[package]
name = "template_ci"
version = "0.1.0"
edition = "2021"
publish = false

[dependencies]
toml = "0.8"
serde_json = "1"
cargo_metadata = "*"
tempfile = "3"
structopt = "0.3"
