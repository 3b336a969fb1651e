[package]
name = "ott_lsp"
version = "0.1.0"
edition = "2021"
publish = false

[dependencies]
lsp-server = "*"
lsp-types = "*"
parking_lot = "*"
serde = "*"
serde_json = "*"
