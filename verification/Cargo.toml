[package]
name = "ehrmantraut"
version = "0.1.0"
edition = "2021"
publish = false

[dependencies]
tree-sitter = "=0.25.10"
tree-sitter-language = "=0.1.9"
tree-sitter-javascript = "=0.23.1"
tree-sitter-typescript = "=0.23.2"
serde = { version = "=1.0.229", features = ["derive"] }
serde_json = "=1.0.154"
ts-rs = "=10.1.0"
rayon = "=1.12.0"
napi = { version = "=2.16.17", features = ["async", "serde-json"] }
napi-derive = "=2.16.13"
