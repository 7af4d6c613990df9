[package]
name = "starlark_kit"
version = "0.1.0"
edition = "2021"
publish = false

[dependencies]
anyhow = "1"
lsp-server = "0.5"
lsp-types = "0.89"
proc-macro2 = { version = "1", default-features = false }
quote = { version = "1", default-features = false }
serde = "1"
serde_json = "1"
syn = { version = "1", default-features = false, features = ["parsing", "printing"] }
