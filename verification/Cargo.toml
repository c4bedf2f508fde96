[package]
name = "cnp"
version = "0.1.0"
edition = "2021"
publish = false

[dependencies]
serde_json = "*"
serde_yaml = "*"
clap = "*"
colored = "*"
comfy-table = "*"
dialoguer = "*"
glob = "*"
indicatif = "*"
