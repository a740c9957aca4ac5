[package]
name = "protocol_adapter"
version = "0.1.0"
edition = "2021"
publish = false

[dependencies]
lsp-server = "0.5"
lsp-types = "0.92"
serde = "1"
serde_json = "1"
tracing = "0.1"
